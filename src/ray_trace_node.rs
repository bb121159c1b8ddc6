use vstd::prelude::*;

use crate::config::{ceil_div, RenderConfig};
use crate::ray_trace_pipeline::{spec_registry, Pass};

verus! {

/// The orchestrator waits in `Loading` until every kernel pipeline has compiled,
/// then stays `Ready` for the rest of the session.
#[derive(Clone, Copy, Debug, PartialEq, Eq, Structural)]
pub enum RayTraceState {
    Loading,
    Ready,
}

/// Every pipeline of the snapshot is ready.
pub open spec fn all_ready(readiness: Seq<bool>) -> bool {
    forall|i: int| 0 <= i < readiness.len() ==> #[trigger] readiness[i]
}

/// The state after a frame's readiness poll. `Ready` is terminal; `Loading` moves
/// to `Ready` only when every pipeline is ready at once.
pub open spec fn next_state(state: RayTraceState, readiness: Seq<bool>) -> RayTraceState {
    match state {
        RayTraceState::Ready => RayTraceState::Ready,
        RayTraceState::Loading => if all_ready(readiness) {
            RayTraceState::Ready
        } else {
            RayTraceState::Loading
        },
    }
}

/// Decides the next state from the current one and a readiness snapshot.
pub fn transition(state: RayTraceState, readiness: &Vec<bool>) -> (r: RayTraceState)
    ensures
        r == next_state(state, readiness@),
{
    match state {
        RayTraceState::Ready => RayTraceState::Ready,
        RayTraceState::Loading => {
            let mut i: usize = 0;
            while i < readiness.len()
                invariant
                    state == RayTraceState::Loading,
                    i <= readiness@.len(),
                    forall|j: int| 0 <= j < i ==> #[trigger] readiness@[j],
                decreases readiness@.len() - i,
            {
                if !readiness[i] {
                    assert(!readiness@[i as int]);
                    return RayTraceState::Loading;
                }
                i = i + 1;
            }
            RayTraceState::Ready
        },
    }
}

/// One compute dispatch: the kernel to run and the number of workgroups.
#[derive(Clone, Copy, Debug, PartialEq, Eq, Structural)]
pub struct Dispatch {
    pub pass: Pass,
    pub workgroups: u32,
}

/// The passes of `n` bounces: {prepass, intersect, shade}, `n` times.
pub open spec fn bounce_passes(n: nat) -> Seq<Pass>
    decreases n,
{
    if n == 0 {
        Seq::empty()
    } else {
        bounce_passes((n - 1) as nat) + seq![Pass::Prepass, Pass::Intersect, Pass::Shade]
    }
}

/// The passes of a frame with `n` bounces, in dispatch order: clear, generate,
/// the bounces, collect.
pub open spec fn frame_passes(n: nat) -> Seq<Pass> {
    seq![Pass::Clear, Pass::Generate] + bounce_passes(n) + seq![Pass::Collect]
}

/// The kernels of a list of dispatches, in order.
pub open spec fn passes_of(d: Seq<Dispatch>) -> Seq<Pass> {
    d.map_values(|x: Dispatch| x.pass)
}

/// The dispatches of a rendered frame: every pass of `frame_passes`, in order,
/// each covering all rays of the frame.
pub open spec fn frame_plan(config: RenderConfig, d: Seq<Dispatch>) -> bool {
    &&& passes_of(d) == frame_passes(config.max_bounces as nat)
    &&& forall|i: int|
        0 <= i < d.len() ==> (#[trigger] d[i]).workgroups as nat == ceil_div(
            config.total_rays(),
            config.workgroup_size as nat,
        )
}

/// The render-graph node that sequences the kernels of each frame.
#[derive(Debug)]
pub struct RayTraceNode {
    state: RayTraceState,
}

impl Default for RayTraceNode {
    fn default() -> (r: RayTraceNode)
        ensures
            r.view() == RayTraceState::Loading,
    {
        RayTraceNode { state: RayTraceState::Loading }
    }
}

impl View for RayTraceNode {
    type V = RayTraceState;

    closed spec fn view(&self) -> RayTraceState {
        self.state
    }
}

impl RayTraceNode {
    /// The node's current state.
    pub fn state(&self) -> (r: RayTraceState)
        ensures
            r == self@,
    {
        self.state
    }

    /// Polls the readiness of every registered pipeline, once per frame.
    pub fn update(&mut self, readiness: &Vec<bool>)
        ensures
            final(self)@ == next_state(old(self)@, readiness@),
    {
        self.state = transition(self.state, readiness);
    }

    fn dispatch(pass: Pass, workgroups: u32) -> (r: Dispatch)
        ensures
            r == (Dispatch { pass, workgroups }),
    {
        Dispatch { pass, workgroups }
    }

    /// The dispatches of this frame, in the order they must be encoded: none while
    /// loading; once ready, clear, generate, `max_bounces` times {prepass,
    /// intersect, shade}, then collect, each over enough workgroups for every ray.
    pub fn run(&self, config: &RenderConfig) -> (r: Vec<Dispatch>)
        requires
            config.wf(),
        ensures
            self@ == RayTraceState::Loading ==> r@.len() == 0,
            self@ == RayTraceState::Ready ==> frame_plan(*config, r@),
    {
        let mut r: Vec<Dispatch> = Vec::new();
        match self.state {
            RayTraceState::Loading => {},
            RayTraceState::Ready => {
                let groups = config.dispatch_count();
                r.push(Self::dispatch(Pass::Clear, groups));
                r.push(Self::dispatch(Pass::Generate, groups));
                assert(passes_of(r@) =~= seq![Pass::Clear, Pass::Generate] + bounce_passes(0));
                let mut b: u32 = 0;
                while b < config.max_bounces
                    invariant
                        b <= config.max_bounces,
                        passes_of(r@) == seq![Pass::Clear, Pass::Generate] + bounce_passes(
                            b as nat,
                        ),
                        forall|i: int| 0 <= i < r@.len() ==> (#[trigger] r@[i]).workgroups == groups,
                    decreases config.max_bounces - b,
                {
                    let ghost prev = r@;
                    r.push(Self::dispatch(Pass::Prepass, groups));
                    r.push(Self::dispatch(Pass::Intersect, groups));
                    r.push(Self::dispatch(Pass::Shade, groups));
                    b = b + 1;
                    proof {
                        let tail = seq![Pass::Prepass, Pass::Intersect, Pass::Shade];
                        assert(passes_of(r@) =~= passes_of(prev) + tail);
                        assert(bounce_passes(b as nat) == bounce_passes((b - 1) as nat) + tail);
                        assert(passes_of(r@) =~= seq![Pass::Clear, Pass::Generate] + bounce_passes(
                            b as nat,
                        ));
                    }
                }
                let ghost before = r@;
                r.push(Self::dispatch(Pass::Collect, groups));
                assert(passes_of(r@) =~= passes_of(before) + seq![Pass::Collect]);
            },
        }
        r
    }
}

/// How many times `p` occurs in `s`.
pub open spec fn count_of(s: Seq<Pass>, p: Pass) -> nat
    decreases s.len(),
{
    if s.len() == 0 {
        0
    } else {
        count_of(s.drop_last(), p) + if s.last() == p {
            1nat
        } else {
            0nat
        }
    }
}

/// Counting distributes over concatenation.
pub proof fn lemma_count_of_add(a: Seq<Pass>, b: Seq<Pass>, p: Pass)
    ensures
        count_of(a + b, p) == count_of(a, p) + count_of(b, p),
    decreases b.len(),
{
    if b.len() == 0 {
        assert(a + b =~= a);
    } else {
        assert((a + b).drop_last() =~= a + b.drop_last());
        assert((a + b).last() == b.last());
        lemma_count_of_add(a, b.drop_last(), p);
    }
}

/// The pass at offset `j` (0, 1 or 2) within a bounce.
pub open spec fn bounce_pass(j: int) -> Pass {
    if j == 0 {
        Pass::Prepass
    } else if j == 1 {
        Pass::Intersect
    } else {
        Pass::Shade
    }
}

/// `n` bounces hold 3n passes: `n` each of prepass, intersect and shade, and
/// bounce `k` occupies positions 3k, 3k+1 and 3k+2 in that order.
pub proof fn lemma_bounce_passes(n: nat)
    ensures
        bounce_passes(n).len() == 3 * n,
        count_of(bounce_passes(n), Pass::Prepass) == n,
        count_of(bounce_passes(n), Pass::Intersect) == n,
        count_of(bounce_passes(n), Pass::Shade) == n,
        count_of(bounce_passes(n), Pass::Clear) == 0,
        count_of(bounce_passes(n), Pass::Generate) == 0,
        count_of(bounce_passes(n), Pass::Collect) == 0,
        forall|i: int| 0 <= i < 3 * n ==> #[trigger] bounce_passes(n)[i] == bounce_pass(i % 3),
    decreases n,
{
    if n > 0 {
        let prev = bounce_passes((n - 1) as nat);
        let tail = seq![Pass::Prepass, Pass::Intersect, Pass::Shade];
        lemma_bounce_passes((n - 1) as nat);
        lemma_count_of_add(prev, tail, Pass::Prepass);
        lemma_count_of_add(prev, tail, Pass::Intersect);
        lemma_count_of_add(prev, tail, Pass::Shade);
        lemma_count_of_add(prev, tail, Pass::Clear);
        lemma_count_of_add(prev, tail, Pass::Generate);
        lemma_count_of_add(prev, tail, Pass::Collect);
        reveal_with_fuel(count_of, 4);
        assert(tail.drop_last().drop_last().drop_last() =~= Seq::<Pass>::empty());
        assert(tail.drop_last() =~= seq![Pass::Prepass, Pass::Intersect]);
        assert(tail.drop_last().drop_last() =~= seq![Pass::Prepass]);
        assert forall|i: int| 0 <= i < 3 * n implies #[trigger] bounce_passes(n)[i] == bounce_pass(
            i % 3,
        ) by {
            if i < 3 * (n - 1) {
                assert(bounce_passes(n)[i] == prev[i]);
            } else {
                assert(bounce_passes(n)[i] == tail[i - 3 * (n - 1)]);
                assert(i % 3 == i - 3 * (n - 1));
            }
        }
    }
}

/// A rendered frame dispatches clear, generate and collect once each, and
/// prepass, intersect and shade exactly `n` times each (one per bounce), in
/// the fixed order clear, generate, n × {prepass, intersect, shade}, collect:
/// 3n + 3 dispatches in all. With at least one bounce, every kernel of the
/// registry runs.
pub proof fn lemma_frame_passes(n: nat)
    ensures
        frame_passes(n).len() == 3 * n + 3,
        count_of(frame_passes(n), Pass::Clear) == 1,
        count_of(frame_passes(n), Pass::Generate) == 1,
        count_of(frame_passes(n), Pass::Collect) == 1,
        count_of(frame_passes(n), Pass::Prepass) == n,
        count_of(frame_passes(n), Pass::Intersect) == n,
        count_of(frame_passes(n), Pass::Shade) == n,
        frame_passes(n)[0] == Pass::Clear,
        frame_passes(n)[1] == Pass::Generate,
        frame_passes(n)[3 * n as int + 2] == Pass::Collect,
        n >= 1 ==> forall|i: int|
            0 <= i < spec_registry().len() ==> count_of(frame_passes(n), #[trigger] spec_registry()[i])
                >= 1,
        forall|i: int|
            2 <= i < 3 * n + 2 ==> #[trigger] frame_passes(n)[i] == bounce_pass((i - 2) % 3),
{
    let head = seq![Pass::Clear, Pass::Generate];
    let mid = bounce_passes(n);
    let tail = seq![Pass::Collect];
    lemma_bounce_passes(n);
    reveal_with_fuel(count_of, 3);
    assert(head.drop_last() =~= seq![Pass::Clear]);
    assert(head.drop_last().drop_last() =~= Seq::<Pass>::empty());
    assert(tail.drop_last() =~= Seq::<Pass>::empty());
    let ps = seq![Pass::Clear, Pass::Prepass, Pass::Generate, Pass::Intersect, Pass::Shade, Pass::Collect];
    assert forall|i: int| 0 <= i < 6 implies count_of(frame_passes(n), #[trigger] ps[i])
        == count_of(head, ps[i]) + count_of(mid, ps[i]) + count_of(tail, ps[i]) by {
        lemma_count_of_add(head, mid, ps[i]);
        lemma_count_of_add(head + mid, tail, ps[i]);
    }
    assert(ps[0] == Pass::Clear);
    assert(ps[1] == Pass::Prepass);
    assert(ps[2] == Pass::Generate);
    assert(ps[3] == Pass::Intersect);
    assert(ps[4] == Pass::Shade);
    assert(ps[5] == Pass::Collect);
    assert(ps =~= spec_registry());
    assert forall|i: int| 2 <= i < 3 * n + 2 implies #[trigger] frame_passes(n)[i] == bounce_pass(
        (i - 2) % 3,
    ) by {
        assert(frame_passes(n)[i] == mid[i - 2]);
    }
}

} // verus!
