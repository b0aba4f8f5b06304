use vstd::prelude::*;

verus! {

/// What the shading loop does next with the ray it holds.
#[derive(Clone, Copy, Debug, PartialEq, Eq, Structural)]
pub enum Step {
    /// The bounce budget is spent: the path contributes black.
    Absorbed,
    /// Look for the nearest hit of the current ray in the scene.
    Query,
}

/// The bookkeeping of one light path: how many bounces remain and how many
/// were taken. Each bounce halves what the path contributes, so a path that
/// escapes to the sky after `bounces` bounces is scaled by `0.5^bounces`.
pub struct Path {
    max_depth: i32,
    depth: i32,
    bounces: u32,
}

impl Path {
    /// The budget the path started with.
    pub closed spec fn spec_max_depth(&self) -> int {
        self.max_depth as int
    }

    /// The bounces that remain.
    pub closed spec fn spec_depth(&self) -> int {
        self.depth as int
    }

    /// The bounces taken so far.
    pub closed spec fn spec_bounces(&self) -> nat {
        self.bounces as nat
    }

    /// Every bounce taken was paid for out of the starting budget, and a
    /// bounce is only taken while some budget remains.
    pub closed spec fn wf(&self) -> bool {
        &&& self.bounces as int + self.depth as int == self.max_depth as int
        &&& self.bounces > 0 ==> self.depth >= 0
    }

    /// A path that has not bounced yet, with `max_depth` bounces allowed.
    pub fn new(max_depth: i32) -> (r: Path)
        ensures
            r.wf(),
            r.spec_max_depth() == max_depth,
            r.spec_depth() == max_depth,
            r.spec_bounces() == 0,
    {
        Path { max_depth, depth: max_depth, bounces: 0 }
    }

    /// The bounces that remain.
    pub fn depth(&self) -> (r: i32)
        ensures
            r == self.spec_depth(),
    {
        self.depth
    }

    /// The bounces taken so far.
    pub fn bounces(&self) -> (r: u32)
        ensures
            r == self.spec_bounces(),
    {
        self.bounces
    }

    /// Absorbed once no bounce remains, else a scene query.
    pub fn step(&self) -> (r: Step)
        ensures
            r == (if self.spec_depth() <= 0 { Step::Absorbed } else { Step::Query }),
    {
        if self.depth <= 0 {
            Step::Absorbed
        } else {
            Step::Query
        }
    }

    /// The path after the current ray hit a surface and was sent on in a
    /// diffuse direction.
    pub fn bounce(&self) -> (r: Path)
        requires
            self.wf(),
            self.spec_depth() > 0,
        ensures
            r.wf(),
            r.spec_max_depth() == self.spec_max_depth(),
            r.spec_depth() == self.spec_depth() - 1,
            r.spec_bounces() == self.spec_bounces() + 1,
    {
        Path { max_depth: self.max_depth, depth: self.depth - 1, bounces: self.bounces + 1 }
    }
}

/// A well-formed path has never taken more bounces than its budget, and
/// once it has taken that many it is absorbed at its next step.
pub proof fn lemma_bounces_bounded(p: Path)
    requires
        p.wf(),
    ensures
        p.spec_bounces() <= if p.spec_max_depth() > 0 { p.spec_max_depth() } else { 0 },
        p.spec_bounces() == p.spec_max_depth() ==> p.spec_depth() <= 0,
{
}

} // verus!
