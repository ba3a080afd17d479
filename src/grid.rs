use vstd::prelude::*;

verus! {

/// A `width` by `height` array of per-pixel values, addressed as `[x][y]`.
pub struct PixelGrid<T> {
    width: usize,
    height: usize,
    cells: Vec<Vec<T>>,
}

impl<T> View for PixelGrid<T> {
    type V = Seq<Seq<T>>;

    /// Column `x` of the view holds the values of pixels `(x, 0..height)`.
    closed spec fn view(&self) -> Seq<Seq<T>> {
        self.cells@.map_values(|c: Vec<T>| c@)
    }
}

impl<T: Copy> PixelGrid<T> {
    pub closed spec fn spec_width(&self) -> nat {
        self.width as nat
    }

    pub closed spec fn spec_height(&self) -> nat {
        self.height as nat
    }

    /// The view has `width` columns of `height` values each.
    pub open spec fn wf(&self) -> bool {
        &&& self@.len() == self.spec_width()
        &&& forall|x: int| 0 <= x < self@.len() ==> #[trigger] self@[x].len() == self.spec_height()
    }

    /// A grid of the given size with every pixel set to `fill`.
    pub fn new(width: usize, height: usize, fill: T) -> (r: PixelGrid<T>)
        ensures
            r.wf(),
            r.spec_width() == width,
            r.spec_height() == height,
            forall|x: int, y: int| 0 <= x < width && 0 <= y < height ==> #[trigger] r@[x][y] == fill,
    {
        let mut cells: Vec<Vec<T>> = Vec::new();
        let mut i: usize = 0;
        while i < width
            invariant
                i <= width,
                cells@.len() == i,
                forall|x: int| 0 <= x < i ==> #[trigger] cells@[x]@.len() == height,
                forall|x: int, y: int| 0 <= x < i && 0 <= y < height ==> #[trigger] cells@[x]@[y] == fill,
            decreases width - i,
        {
            let mut column: Vec<T> = Vec::new();
            let mut j: usize = 0;
            while j < height
                invariant
                    j <= height,
                    column@.len() == j,
                    forall|y: int| 0 <= y < j ==> #[trigger] column@[y] == fill,
                decreases height - j,
            {
                column.push(fill);
                j = j + 1;
            }
            cells.push(column);
            i = i + 1;
        }
        let r = PixelGrid { width, height, cells };
        assert forall|x: int| 0 <= x < r@.len() implies #[trigger] r@[x].len() == height by {
            assert(cells@[x]@.len() == height);
        }
        assert forall|x: int, y: int| 0 <= x < width && 0 <= y < height implies #[trigger] r@[x][y] == fill by {
            assert(cells@[x]@[y] == fill);
        }
        r
    }

    pub fn width(&self) -> (r: usize)
        ensures
            r == self.spec_width(),
    {
        self.width
    }

    pub fn height(&self) -> (r: usize)
        ensures
            r == self.spec_height(),
    {
        self.height
    }

    /// The value of pixel `(x, y)`.
    pub fn get(&self, x: usize, y: usize) -> (r: T)
        requires
            self.wf(),
            x < self.spec_width(),
            y < self.spec_height(),
        ensures
            r == self@[x as int][y as int],
    {
        assert(self@[x as int] == self.cells@[x as int]@);
        self.cells[x][y]
    }

    /// Replaces the value of pixel `(x, y)` and leaves every other pixel alone.
    pub fn set(&mut self, x: usize, y: usize, v: T)
        requires
            old(self).wf(),
            x < old(self).spec_width(),
            y < old(self).spec_height(),
        ensures
            final(self).wf(),
            final(self).spec_width() == old(self).spec_width(),
            final(self).spec_height() == old(self).spec_height(),
            final(self)@ == old(self)@.update(x as int, old(self)@[x as int].update(y as int, v)),
    {
        assert(self@[x as int] == self.cells@[x as int]@);
        let mut column: Vec<T> = Vec::new();
        std::mem::swap(&mut column, &mut self.cells[x]);
        column.set(y, v);
        self.cells.set(x, column);
        assert(self@ =~= old(self)@.update(x as int, old(self)@[x as int].update(y as int, v)));
    }
}

} // verus!
