use vstd::prelude::*;

verus! {

/// What one scene query, followed by the hit material's scatter call, gave at
/// a vertex of a path.
#[derive(Clone, Copy, Debug, PartialEq, Eq, Structural)]
pub enum Vertex {
    /// The ray hit nothing: the environment is seen along it.
    Miss,
    /// The ray hit a surface whose material absorbed it (or rejected the
    /// sampled direction as lying below the surface).
    Absorbed,
    /// The ray hit a surface and the material handed back an attenuation and
    /// a scattered ray, which the path follows next.
    Scattered,
}

/// How the radiance of a finished path is formed.
#[derive(Clone, Copy, Debug, PartialEq, Eq, Structural)]
pub enum Terminal {
    /// Exactly zero radiance, whatever was gathered before.
    Zero,
    /// The background gradient along the last ray, multiplied component-wise
    /// by the attenuations of all bounces.
    Background,
}

/// The resolution of a path: how it ended and after how many bounces.
#[derive(Clone, Copy, Debug, PartialEq, Eq, Structural)]
pub struct PathOutcome {
    pub terminal: Terminal,
    pub bounces: u32,
}

/// The recursive estimator `estimate(ray, scene, depth)` read as a function
/// of the depth budget and the vertices met along the path: `None` while the
/// vertices given do not yet decide the path, else its terminal and the
/// number of attenuations that multiply the result.
pub open spec fn estimate_outcome(depth: int, vertices: Seq<Vertex>) -> Option<(Terminal, nat)>
    decreases vertices.len(),
{
    if depth <= 0 {
        Some((Terminal::Zero, 0))
    } else if vertices.len() == 0 {
        None
    } else {
        match vertices[0] {
            Vertex::Miss => Some((Terminal::Background, 0)),
            Vertex::Absorbed => Some((Terminal::Zero, 0)),
            Vertex::Scattered => match estimate_outcome(depth - 1, vertices.drop_first()) {
                Some((t, b)) => Some((t, b + 1)),
                None => None,
            },
        }
    }
}

/// The state of the iterative estimator: the remaining depth budget, the
/// bounces taken so far (each multiplies the running throughput by one
/// attenuation), and how the path ended once it has.
#[derive(Clone, Copy, Debug, PartialEq, Eq, Structural)]
pub struct PathState {
    pub remaining: i32,
    pub bounces: u32,
    pub end: Option<Terminal>,
}

impl PathState {
    pub open spec fn wf(self) -> bool {
        &&& self.remaining + self.bounces <= i32::MAX
        &&& (self.end is None ==> self.remaining > 0)
    }

    pub open spec fn spec_start(max_depth: i32) -> PathState {
        PathState {
            remaining: max_depth,
            bounces: 0,
            end: if max_depth <= 0 { Some(Terminal::Zero) } else { None },
        }
    }

    /// One step of the iterative estimator on a path that has not ended.
    pub open spec fn spec_next(self, v: Vertex) -> PathState {
        match v {
            Vertex::Miss => PathState { end: Some(Terminal::Background), ..self },
            Vertex::Absorbed => PathState { end: Some(Terminal::Zero), ..self },
            Vertex::Scattered => PathState {
                remaining: (self.remaining - 1) as i32,
                bounces: (self.bounces + 1) as u32,
                end: if self.remaining - 1 <= 0 { Some(Terminal::Zero) } else { None },
            },
        }
    }

    /// The state reached by feeding `vertices` one by one until the path ends;
    /// vertices after the end are not looked at.
    pub open spec fn spec_run(self, vertices: Seq<Vertex>) -> PathState
        decreases vertices.len(),
    {
        if self.end is Some || vertices.len() == 0 {
            self
        } else {
            self.spec_next(vertices[0]).spec_run(vertices.drop_first())
        }
    }

    /// The outcome that a state records, once it has ended.
    pub open spec fn spec_outcome(self) -> Option<(Terminal, nat)> {
        match self.end {
            Some(t) => Some((t, self.bounces as nat)),
            None => None,
        }
    }

    /// A path about to be traced with a budget of `max_depth` bounces; it is
    /// over at once (with zero radiance) when the budget is not positive.
    pub fn start(max_depth: i32) -> (s: PathState)
        ensures
            s == PathState::spec_start(max_depth),
            s.wf(),
    {
        PathState {
            remaining: max_depth,
            bounces: 0,
            end: if max_depth <= 0 { Some(Terminal::Zero) } else { None },
        }
    }

    /// Whether the path has ended, so that no further scene query is owed.
    pub fn is_done(&self) -> (r: bool)
        ensures
            r == (self.end is Some),
    {
        self.end.is_some()
    }

    /// Records what the scene query and the material gave at the current
    /// vertex.
    pub fn advance(&mut self, v: Vertex)
        requires
            old(self).wf(),
            old(self).end is None,
        ensures
            *final(self) == old(self).spec_next(v),
            final(self).wf(),
    {
        match v {
            Vertex::Miss => {
                self.end = Some(Terminal::Background);
            },
            Vertex::Absorbed => {
                self.end = Some(Terminal::Zero);
            },
            Vertex::Scattered => {
                self.remaining = self.remaining - 1;
                self.bounces = self.bounces + 1;
                if self.remaining <= 0 {
                    self.end = Some(Terminal::Zero);
                }
            },
        }
    }

    /// How the path ended, once it has.
    pub fn outcome(&self) -> (r: Option<PathOutcome>)
        ensures
            r is None <==> self.end is None,
            r matches Some(o) ==> self.spec_outcome() == Some((o.terminal, o.bounces as nat)),
    {
        match self.end {
            Some(t) => Some(PathOutcome { terminal: t, bounces: self.bounces }),
            None => None,
        }
    }
}

/// `estimate_outcome` with `extra` more bounces counted in front.
spec fn shifted(o: Option<(Terminal, nat)>, extra: nat) -> Option<(Terminal, nat)> {
    match o {
        Some((t, b)) => Some((t, b + extra)),
        None => None,
    }
}

proof fn lemma_run_from(s: PathState, vertices: Seq<Vertex>)
    requires
        s.wf(),
        s.end is None,
    ensures
        s.spec_run(vertices).spec_outcome() == shifted(
            estimate_outcome(s.remaining as int, vertices),
            s.bounces as nat,
        ),
        s.spec_run(vertices).wf(),
    decreases vertices.len(),
{
    if vertices.len() > 0 {
        let n = s.spec_next(vertices[0]);
        if n.end is None {
            lemma_run_from(n, vertices.drop_first());
        }
    }
}

/// The iterative estimator is the recursive one: starting from a budget of
/// `max_depth` and feeding the vertices of a path one by one ends exactly
/// when, and exactly as, the recursion `estimate(ray, scene, max_depth)`
/// ends on those vertices, with the same number of attenuations.
pub proof fn lemma_iterative_matches_recursive(max_depth: i32, vertices: Seq<Vertex>)
    ensures
        PathState::spec_start(max_depth).spec_run(vertices).spec_outcome() == estimate_outcome(
            max_depth as int,
            vertices,
        ),
        PathState::spec_start(max_depth).spec_run(vertices).wf(),
{
    if max_depth > 0 {
        lemma_run_from(PathState::spec_start(max_depth), vertices);
    }
}

/// With no depth budget left the estimate is exactly zero radiance, with no
/// bounce and whatever the ray and the scene.
pub proof fn lemma_depth_exhausted(depth: int, vertices: Seq<Vertex>)
    requires
        depth <= 0,
    ensures
        estimate_outcome(depth, vertices) == Some((Terminal::Zero, 0nat)),
{
}

/// A primary ray that meets nothing yields the background along it, with no
/// attenuation applied: no material, and so no randomness, is involved.
pub proof fn lemma_miss_is_background(depth: int, vertices: Seq<Vertex>)
    requires
        depth > 0,
        vertices.len() > 0,
        vertices[0] == Vertex::Miss,
    ensures
        estimate_outcome(depth, vertices) == Some((Terminal::Background, 0nat)),
{
}

/// A path that scatters `k` times and then escapes, within the budget, is the
/// background scaled by exactly those `k` attenuations; when the budget runs
/// out first it is zero after `depth` bounces.
pub proof fn lemma_scatter_chain(depth: int, k: nat, vertices: Seq<Vertex>)
    requires
        depth > 0,
        k < vertices.len(),
        forall|i: int| 0 <= i < k ==> vertices[i] == Vertex::Scattered,
        vertices[k as int] == Vertex::Miss,
    ensures
        k < depth ==> estimate_outcome(depth, vertices) == Some((Terminal::Background, k)),
        k >= depth ==> estimate_outcome(depth, vertices) == Some((Terminal::Zero, depth as nat)),
    decreases k,
{
    if k > 0 {
        assert(vertices[0] == Vertex::Scattered);
    }
    if k > 0 && depth == 1 {
        assert(estimate_outcome(0, vertices.drop_first()) == Some((Terminal::Zero, 0nat)));
    }
    if k > 0 && depth > 1 {
        let rest = vertices.drop_first();
        assert forall|i: int| 0 <= i < (k - 1) as nat implies rest[i] == Vertex::Scattered by {
            assert(vertices[i + 1] == Vertex::Scattered);
        }
        lemma_scatter_chain(depth - 1, (k - 1) as nat, rest);
    }
}

/// Every bounce uses one unit of the budget and one vertex: a decided path has
/// at most `depth` bounces and met at least that many vertices, and a path
/// that escaped did so within the budget.
pub proof fn lemma_bounces_bounded(depth: int, vertices: Seq<Vertex>)
    requires
        estimate_outcome(depth, vertices) is Some,
    ensures
        ({
            let (t, b) = estimate_outcome(depth, vertices).unwrap();
            &&& depth > 0 ==> b <= depth
            &&& depth <= 0 ==> b == 0
            &&& b <= vertices.len()
            &&& t == Terminal::Background ==> b < depth
        }),
    decreases vertices.len(),
{
    if depth > 0 && vertices.len() > 0 && vertices[0] == Vertex::Scattered {
        lemma_bounces_bounded(depth - 1, vertices.drop_first());
    }
}

/// Determinism against a fixed random sequence: once the vertices drawn so
/// far decide a path, drawing more changes nothing, so replaying the same
/// draws always gives the same radiance.
pub proof fn lemma_decided_path_is_stable(depth: int, vertices: Seq<Vertex>, more: Seq<Vertex>)
    requires
        estimate_outcome(depth, vertices) is Some,
    ensures
        estimate_outcome(depth, vertices + more) == estimate_outcome(depth, vertices),
    decreases vertices.len(),
{
    if depth > 0 && vertices.len() > 0 {
        assert((vertices + more)[0] == vertices[0]);
        if vertices[0] == Vertex::Scattered {
            assert((vertices + more).drop_first() =~= vertices.drop_first() + more);
            lemma_decided_path_is_stable(depth - 1, vertices.drop_first(), more);
        }
    }
}

/// Replays the estimator over the vertices recorded along a path (for
/// instance those drawn from a fixed random sequence), stopping as soon as
/// the path is decided.
pub fn resolve(max_depth: i32, vertices: &Vec<Vertex>) -> (r: Option<PathOutcome>)
    ensures
        r is None <==> estimate_outcome(max_depth as int, vertices@) is None,
        r matches Some(o) ==> estimate_outcome(max_depth as int, vertices@) == Some(
            (o.terminal, o.bounces as nat),
        ),
{
    let ghost vs = vertices@;
    let mut s = PathState::start(max_depth);
    let mut i: usize = 0;
    proof {
        assert(vs.subrange(0, vs.len() as int) =~= vs);
    }
    while i < vertices.len() && !s.is_done()
        invariant
            s.wf(),
            i <= vs.len(),
            vs == vertices@,
            PathState::spec_start(max_depth).spec_run(vs) == s.spec_run(
                vs.subrange(i as int, vs.len() as int),
            ),
        decreases vs.len() - i,
    {
        let v = vertices[i];
        proof {
            let tail = vs.subrange(i as int, vs.len() as int);
            assert(tail[0] == v);
            assert(tail.drop_first() =~= vs.subrange(i + 1, vs.len() as int));
        }
        s.advance(v);
        i = i + 1;
    }
    proof {
        lemma_iterative_matches_recursive(max_depth, vs);
        assert(vs.subrange(i as int, vs.len() as int).len() == 0 || s.end is Some);
    }
    s.outcome()
}

} // verus!
