use vstd::prelude::*;

verus! {

/// The interaction a material picks for a ray that meets its surface.
#[derive(Debug, Clone, Copy, PartialEq, Eq, Structural)]
pub enum Interaction {
    /// Specular reflection, spread by the material's gloss.
    Reflect,
    /// Refraction into the volume behind the surface.
    Transmit,
    /// The path ends here.
    Absorb,
    /// Cosine-weighted re-emission about the normal.
    Diffuse,
    /// The ray is already inside the volume and meets it from behind.
    Exit,
}

/// Energy multiplier that goes with a scattering outcome.
#[derive(Debug, Clone, Copy, PartialEq, Eq, Structural)]
pub enum Weight {
    /// `{1,1,1}` blended toward the Fresnel colour by the metal fraction.
    Specular,
    /// `{1,1,1}`: the throughput is carried unchanged.
    Unit,
    /// The diffuse colour divided by pi.
    Lambert,
    /// Beer–Lambert attenuation over the distance travelled in the volume.
    Absorbance,
    /// `{0,0,0}`: nothing is carried on.
    Zero,
}

/// The outcome of one scattering evaluation.
#[derive(Debug, Clone, Copy, PartialEq, Eq, Structural)]
pub enum Scatter {
    /// Leaves along the gloss-spread mirror direction.
    Mirror,
    /// Enters the volume along the refracted direction, or along its
    /// gloss-spread version when `perturbed`.
    Refract { perturbed: bool },
    /// Re-emitted about the normal.
    Diffuse,
    /// Absorbed: the path stops.
    Absorbed,
    /// An opaque surface met from behind: the ray goes on unchanged.
    PassThrough,
    /// Leaves the volume along the refracted direction, or along its
    /// gloss-spread version when `perturbed`.
    ExitRefract { perturbed: bool },
    /// Reflected back into the volume.
    InternalReflect,
}

/// The interaction chosen by a fixed cascade of independent draws: a ray that
/// does not enter the surface exits; otherwise the first draw that fell below
/// its probability wins, in the order reflect, transmit, absorb, and diffuse
/// is left when none did.
pub open spec fn interaction_of(
    entering: bool,
    reflect_drawn: bool,
    transmit_drawn: bool,
    absorb_drawn: bool,
) -> Interaction {
    if !entering {
        Interaction::Exit
    } else if reflect_drawn {
        Interaction::Reflect
    } else if transmit_drawn {
        Interaction::Transmit
    } else if absorb_drawn {
        Interaction::Absorb
    } else {
        Interaction::Diffuse
    }
}

/// Selects the interaction. `reflect_drawn`, `transmit_drawn` and
/// `absorb_drawn` say whether a fresh uniform draw fell below the Schlick
/// reflectance, the transmit fraction and the metal fraction; draws after the
/// first success are never looked at.
pub fn select_interaction(
    entering: bool,
    reflect_drawn: bool,
    transmit_drawn: bool,
    absorb_drawn: bool,
) -> (r: Interaction)
    ensures
        r == interaction_of(entering, reflect_drawn, transmit_drawn, absorb_drawn),
{
    if !entering {
        Interaction::Exit
    } else if reflect_drawn {
        Interaction::Reflect
    } else if transmit_drawn {
        Interaction::Transmit
    } else if absorb_drawn {
        Interaction::Absorb
    } else {
        Interaction::Diffuse
    }
}

/// Specular reflection: a spread mirror direction that would go into the
/// surface falls back to diffuse re-emission.
pub fn resolve_reflect(spread_enters: bool) -> (r: Scatter)
    ensures
        r == (if spread_enters { Scatter::Diffuse } else { Scatter::Mirror }),
{
    if spread_enters {
        Scatter::Diffuse
    } else {
        Scatter::Mirror
    }
}

/// Transmission: total internal reflection (`!refracts`) falls back to
/// diffuse re-emission; otherwise the spread direction is kept when it goes
/// into the surface, and the plain refracted one when it does not.
pub fn resolve_transmit(refracts: bool, spread_enters: bool) -> (r: Scatter)
    ensures
        r == (if !refracts {
            Scatter::Diffuse
        } else {
            Scatter::Refract { perturbed: spread_enters }
        }),
{
    if !refracts {
        Scatter::Diffuse
    } else {
        Scatter::Refract { perturbed: spread_enters }
    }
}

/// A ray inside a volume meets its surface. A fully opaque material lets it
/// through unchanged. Otherwise it leaves when the Fresnel draw came out for
/// refraction and the refraction exists (`leaves`), spread as in
/// transmission, and is reflected back inside when not.
pub fn resolve_exit(opaque: bool, leaves: bool, spread_enters: bool) -> (r: Scatter)
    ensures
        r == (if opaque {
            Scatter::PassThrough
        } else if leaves {
            Scatter::ExitRefract { perturbed: spread_enters }
        } else {
            Scatter::InternalReflect
        }),
{
    if opaque {
        Scatter::PassThrough
    } else if leaves {
        Scatter::ExitRefract { perturbed: spread_enters }
    } else {
        Scatter::InternalReflect
    }
}

/// The weight that goes with each outcome.
pub open spec fn weight_of(s: Scatter) -> Weight {
    match s {
        Scatter::Mirror => Weight::Specular,
        Scatter::Refract { .. } => Weight::Unit,
        Scatter::Diffuse => Weight::Lambert,
        Scatter::Absorbed => Weight::Zero,
        Scatter::PassThrough => Weight::Unit,
        Scatter::ExitRefract { .. } => Weight::Absorbance,
        Scatter::InternalReflect => Weight::Absorbance,
    }
}

impl Scatter {
    /// The energy multiplier of this outcome.
    pub fn weight(&self) -> (r: Weight)
        ensures
            r == weight_of(*self),
    {
        match self {
            Scatter::Mirror => Weight::Specular,
            Scatter::Refract { .. } => Weight::Unit,
            Scatter::Diffuse => Weight::Lambert,
            Scatter::Absorbed => Weight::Zero,
            Scatter::PassThrough => Weight::Unit,
            Scatter::ExitRefract { .. } => Weight::Absorbance,
            Scatter::InternalReflect => Weight::Absorbance,
        }
    }

    /// Whether the path goes on after this outcome: every outcome but
    /// absorption continues it.
    pub fn continues(&self) -> (r: bool)
        ensures
            r == !(*self is Absorbed),
    {
        match self {
            Scatter::Absorbed => false,
            _ => true,
        }
    }
}

} // verus!
