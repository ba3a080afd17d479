use vstd::prelude::*;

verus! {

/// Settings of the per-pixel sampler.
#[derive(Debug, Clone, Copy)]
pub struct SamplerConfiguration {
    /// Upper bound on the number of scene queries made by one traced path.
    pub max_bounces: usize,
    /// Reserved for adaptive sampling; the integrator does not read it.
    pub adapt: usize,
}

/// What a traced path does next.
#[derive(Debug, Clone, Copy, PartialEq, Eq, Structural)]
pub enum Stage {
    /// Ask the scene for the nearest surface along the current ray.
    Intersect,
    /// Attempt the Russian-roulette gain on the carried throughput.
    Roulette,
    /// Let the hit material scatter the ray.
    Scatter,
    /// The path contributes nothing more.
    Finished,
}

/// Position of a path in the integrator: the bounce it is on and the step
/// within that bounce.
#[derive(Debug, Clone, Copy, PartialEq, Eq, Structural)]
pub struct PathState {
    pub bounce: usize,
    pub stage: Stage,
}

/// The state in which a path starts.
pub open spec fn start_spec(max_bounces: usize) -> PathState {
    if max_bounces == 0 {
        PathState { bounce: 0, stage: Stage::Finished }
    } else {
        PathState { bounce: 0, stage: Stage::Intersect }
    }
}

/// One step of the integrator. `ok` is the outcome of the work the stage asked
/// for: the ray hit a surface, the roulette kept the path, the material
/// scattered the ray instead of absorbing it.
pub open spec fn advance_spec(s: PathState, ok: bool, max_bounces: usize) -> PathState {
    match s.stage {
        Stage::Intersect => if ok {
            PathState { bounce: s.bounce, stage: Stage::Roulette }
        } else {
            PathState { bounce: s.bounce, stage: Stage::Finished }
        },
        Stage::Roulette => if ok {
            PathState { bounce: s.bounce, stage: Stage::Scatter }
        } else {
            PathState { bounce: s.bounce, stage: Stage::Finished }
        },
        Stage::Scatter => if ok && s.bounce + 1 < max_bounces {
            PathState { bounce: (s.bounce + 1) as usize, stage: Stage::Intersect }
        } else {
            PathState { bounce: s.bounce, stage: Stage::Finished }
        },
        Stage::Finished => s,
    }
}

/// Number of scene queries a path makes from `s` when the work of its stages
/// comes out as `outcomes`, in order; the path stops at `Finished` or when the
/// outcomes run out.
pub open spec fn queries(s: PathState, outcomes: Seq<bool>, max_bounces: usize) -> nat
    decreases outcomes.len(),
{
    if outcomes.len() == 0 || s.stage == Stage::Finished {
        0
    } else {
        let here: nat = if s.stage == Stage::Intersect { 1 } else { 0 };
        here + queries(advance_spec(s, outcomes[0], max_bounces), outcomes.drop_first(), max_bounces)
    }
}

/// Scene queries still allowed to a path in state `s`.
pub open spec fn queries_left(s: PathState, max_bounces: usize) -> int {
    match s.stage {
        Stage::Intersect => max_bounces - s.bounce,
        Stage::Finished => 0,
        _ => max_bounces - s.bounce - 1,
    }
}

/// A well-formed path never makes more scene queries than it has left.
pub proof fn lemma_queries_within_left(s: PathState, outcomes: Seq<bool>, max_bounces: usize)
    requires
        s.wf(max_bounces),
    ensures
        queries(s, outcomes, max_bounces) <= queries_left(s, max_bounces),
    decreases outcomes.len(),
{
    if outcomes.len() > 0 && s.stage != Stage::Finished {
        let n = advance_spec(s, outcomes[0], max_bounces);
        lemma_queries_within_left(n, outcomes.drop_first(), max_bounces);
    }
}

/// Whatever the scene, the roulette and the materials decide, one traced path
/// asks the scene for an intersection at most `max_bounces` times.
pub proof fn lemma_path_queries_bounded(max_bounces: usize, outcomes: Seq<bool>)
    ensures
        queries(start_spec(max_bounces), outcomes, max_bounces) <= max_bounces,
{
    lemma_queries_within_left(start_spec(max_bounces), outcomes, max_bounces);
}

impl PathState {
    /// A live path is on a bounce below the configured maximum.
    pub open spec fn wf(self, max_bounces: usize) -> bool {
        self.stage != Stage::Finished ==> self.bounce < max_bounces
    }

    pub open spec fn is_finished(self) -> bool {
        self.stage == Stage::Finished
    }

    /// Starts a path: it queries the scene first, unless the configuration
    /// allows no bounce at all.
    pub fn start(config: &SamplerConfiguration) -> (r: PathState)
        ensures
            r == start_spec(config.max_bounces),
            r.wf(config.max_bounces),
    {
        if config.max_bounces == 0 {
            PathState { bounce: 0, stage: Stage::Finished }
        } else {
            PathState { bounce: 0, stage: Stage::Intersect }
        }
    }

    /// Moves the path on after the work of its current stage came out as `ok`.
    pub fn advance(&self, ok: bool, config: &SamplerConfiguration) -> (r: PathState)
        requires
            self.wf(config.max_bounces),
        ensures
            r == advance_spec(*self, ok, config.max_bounces),
            r.wf(config.max_bounces),
    {
        match self.stage {
            Stage::Intersect => if ok {
                PathState { bounce: self.bounce, stage: Stage::Roulette }
            } else {
                PathState { bounce: self.bounce, stage: Stage::Finished }
            },
            Stage::Roulette => if ok {
                PathState { bounce: self.bounce, stage: Stage::Scatter }
            } else {
                PathState { bounce: self.bounce, stage: Stage::Finished }
            },
            Stage::Scatter => if ok && self.bounce + 1 < config.max_bounces {
                PathState { bounce: self.bounce + 1, stage: Stage::Intersect }
            } else {
                PathState { bounce: self.bounce, stage: Stage::Finished }
            },
            Stage::Finished => *self,
        }
    }

    pub fn is_done(&self) -> (r: bool)
        ensures
            r == self.is_finished(),
    {
        match self.stage {
            Stage::Finished => true,
            _ => false,
        }
    }
}

} // verus!
