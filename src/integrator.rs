use vstd::prelude::*;

verus! {

/// What a traced ray met in the scene.
#[derive(Clone, Copy, Debug, PartialEq, Eq, Structural)]
pub enum Interaction {
    /// No primitive was hit.
    Escaped,
    /// A primitive was hit and its material absorbed the ray.
    Absorbed,
    /// A primitive was hit and its material scattered the ray.
    Scattered,
}

/// How the radiance estimate of a ray goes on.
#[derive(Clone, Copy, Debug, PartialEq, Eq, Structural)]
pub enum PathStep {
    /// No light: the bounce budget is spent, or the ray was absorbed.
    Black,
    /// The ray escaped and takes the background gradient.
    Background,
    /// Multiply by the material's attenuation and follow the scattered ray.
    Follow,
}

/// One step of the depth-limited integrator, from the bounces left and what the ray met:
/// the step and the bounces left afterwards.
pub open spec fn path_step(remaining: nat, met: Interaction) -> (PathStep, nat) {
    if remaining == 0 {
        (PathStep::Black, 0)
    } else {
        match met {
            Interaction::Escaped => (PathStep::Background, remaining),
            Interaction::Absorbed => (PathStep::Black, remaining),
            Interaction::Scattered => (PathStep::Follow, (remaining - 1) as nat),
        }
    }
}

/// The number of rays followed when the interactions `met` are met one after another,
/// starting with `remaining` bounces, until a step that ends the path.
pub open spec fn follows(remaining: nat, met: Seq<Interaction>) -> nat
    decreases met.len(),
{
    if met.len() == 0 {
        0
    } else {
        let (step, left) = path_step(remaining, met[0]);
        if step == PathStep::Follow {
            1 + follows(left, met.drop_first())
        } else {
            0
        }
    }
}

/// The bounce budget of one path: how many more rays may be followed before the
/// estimate is cut off as black.
pub struct PathBudget {
    remaining: usize,
}

impl View for PathBudget {
    type V = nat;

    closed spec fn view(&self) -> nat {
        self.remaining as nat
    }
}

impl PathBudget {
    /// The budget of a path traced with at most `max_depth` rays.
    pub fn new(max_depth: usize) -> (r: PathBudget)
        ensures
            r@ == max_depth,
    {
        PathBudget { remaining: max_depth }
    }

    /// The number of rays that may still be traced.
    pub fn remaining(&self) -> (r: usize)
        ensures
            r == self@,
    {
        self.remaining
    }

    /// Whether the budget is spent, so that the ray is black without querying the scene.
    pub fn exhausted(&self) -> (r: bool)
        ensures
            r == (self@ == 0),
    {
        self.remaining == 0
    }

    /// Decides the step for a ray that met `met`, and spends one bounce when it is followed.
    pub fn step(&mut self, met: Interaction) -> (r: PathStep)
        ensures
            (r, final(self)@) == path_step(old(self)@, met),
    {
        if self.remaining == 0 {
            PathStep::Black
        } else {
            match met {
                Interaction::Escaped => PathStep::Background,
                Interaction::Absorbed => PathStep::Black,
                Interaction::Scattered => {
                    self.remaining = self.remaining - 1;
                    PathStep::Follow
                },
            }
        }
    }
}

/// The integrator terminates within its budget: whatever the scene makes the rays meet,
/// a path started with `max_depth` bounces follows at most `max_depth` scattered rays, and
/// with no bounces left every step is black.
pub proof fn lemma_path_within_budget(max_depth: nat, met: Seq<Interaction>)
    ensures
        follows(max_depth, met) <= max_depth,
        max_depth == 0 ==> forall|m: Interaction| path_step(0, m) == (PathStep::Black, 0nat),
    decreases met.len(),
{
    if met.len() > 0 {
        let (step, left) = path_step(max_depth, met[0]);
        if step == PathStep::Follow {
            lemma_path_within_budget(left, met.drop_first());
        }
    }
}

} // verus!
