//! The path tracer's decision core and the render session.
//!
//! A single ray is traced by alternating two kinds of work: the caller
//! intersects the scene and reflects the ray (real-valued geometry), and the
//! state machine here decides whether tracing goes on, records each struck
//! node, and judges the attempt once the caller stops. The session type
//! collects the successful paths and orders them for assembly.

use vstd::prelude::*;
use vstd::seq_lib::group_to_multiset_ensures;
use crate::scene::{Primitive, SceneNode};

verus! {

/// The mathematical state of one ray trace: the configured receiver id and
/// reflection budget, the node ids struck so far, and whether the last
/// strike was the receiver.
pub struct TraceView {
    pub receiver: u32,
    pub max_order: u32,
    pub path: Seq<u32>,
    pub hit_receiver: bool,
}

/// The state a trace starts from: nothing struck yet.
pub open spec fn trace_init(receiver: u32, max_order: u32) -> TraceView {
    TraceView { receiver, max_order, path: Seq::empty(), hit_receiver: false }
}

/// How one strike changes the state: the node is appended and the trace
/// remembers whether it was the receiver.
pub open spec fn trace_step(s: TraceView, node: u32) -> TraceView {
    TraceView {
        receiver: s.receiver,
        max_order: s.max_order,
        path: s.path.push(node),
        hit_receiver: node == s.receiver,
    }
}

/// Tracing goes on while the reflection budget is not exhausted and the
/// receiver has not been struck.
pub open spec fn trace_may_continue(s: TraceView) -> bool {
    s.path.len() < s.max_order && !s.hit_receiver
}

/// The state after feeding a sequence of strikes through the trace, each one
/// admitted only while the trace may continue.
pub open spec fn trace_run(s: TraceView, hits: Seq<u32>) -> TraceView
    decreases hits.len(),
{
    if hits.len() == 0 || !trace_may_continue(s) {
        s
    } else {
        trace_run(trace_step(s, hits.first()), hits.drop_first())
    }
}

/// What holds of every reachable trace state: the path never exceeds the
/// budget, the receiver is struck exactly when it ends the path, and it
/// appears nowhere before the end.
pub open spec fn trace_wf(s: TraceView) -> bool {
    &&& s.path.len() <= s.max_order
    &&& (s.hit_receiver <==> s.path.len() >= 1 && s.path.last() == s.receiver)
    &&& forall|i: int| 0 <= i < s.path.len() - 1 ==> s.path[i] != s.receiver
}

/// Running a trace preserves its configuration and its well-formedness.
pub proof fn lemma_trace_run_wf(s: TraceView, hits: Seq<u32>)
    requires
        trace_wf(s),
    ensures
        trace_wf(trace_run(s, hits)),
        trace_run(s, hits).receiver == s.receiver,
        trace_run(s, hits).max_order == s.max_order,
    decreases hits.len(),
{
    if hits.len() == 0 || !trace_may_continue(s) {
    } else {
        let node = hits.first();
        let s2 = trace_step(s, node);
        assert(trace_wf(s2)) by {
            assert forall|i: int| 0 <= i < s2.path.len() - 1 implies s2.path[i] != s2.receiver by {
                assert(s2.path[i] == s.path[i]);
                if i == s.path.len() - 1 {
                    assert(!(s.path.last() == s.receiver));
                }
            }
        }
        lemma_trace_run_wf(s2, hits.drop_first());
    }
}

/// Every path a trace accepts ends at the receiver and holds between one and
/// `max_order` strikes, whatever the scene handed back.
pub proof fn lemma_traced_path_valid(receiver: u32, max_order: u32, hits: Seq<u32>)
    ensures
        ({
            let end = trace_run(trace_init(receiver, max_order), hits);
            end.hit_receiver ==> {
                &&& 1 <= end.path.len() <= max_order
                &&& end.path.last() == receiver
            }
        }),
{
    lemma_trace_run_wf(trace_init(receiver, max_order), hits);
}

/// With a reflection budget of zero no strike is ever admitted, so no trace
/// succeeds, whatever the scene hands back.
pub proof fn lemma_zero_order_no_path(receiver: u32, hits: Seq<u32>)
    ensures
        !trace_run(trace_init(receiver, 0), hits).hit_receiver,
        trace_run(trace_init(receiver, 0), hits).path.len() == 0,
{
    assert(!trace_may_continue(trace_init(receiver, 0)));
}

/// When the first strike already is the receiver, the trace ends at once
/// with a path of length one.
pub proof fn lemma_first_hit_receiver(receiver: u32, max_order: u32, hits: Seq<u32>)
    requires
        max_order >= 1,
        hits.len() >= 1,
        hits.first() == receiver,
    ensures
        ({
            let end = trace_run(trace_init(receiver, max_order), hits);
            &&& end.hit_receiver
            &&& end.path =~= seq![receiver]
        }),
{
    let s0 = trace_init(receiver, max_order);
    let s1 = trace_step(s0, receiver);
    assert(trace_run(s1, hits.drop_first()) == s1);
}

/// One source-to-receiver trajectory: the ids of the nodes struck, ending at
/// the receiver, and a key that orders paths by their total length.
pub struct RayPath {
    pub path: Vec<u32>,
    pub distance_key: u64,
}

/// Paths ordered by their distance keys, ascending.
pub open spec fn sorted_by_distance(s: Seq<RayPath>) -> bool {
    forall|a: int, b: int| 0 <= a <= b < s.len() ==> s[a].distance_key <= s[b].distance_key
}

/// The in-flight state of one ray trace. The caller owns the geometry: it
/// intersects the scene and reflects the ray, and hands each struck node id
/// to `record_hit` while `should_continue` allows it.
pub struct TraceState {
    receiver: u32,
    max_order: u32,
    path: Vec<u32>,
    hit_receiver: bool,
}

impl View for TraceState {
    type V = TraceView;

    closed spec fn view(&self) -> TraceView {
        TraceView {
            receiver: self.receiver,
            max_order: self.max_order,
            path: self.path@,
            hit_receiver: self.hit_receiver,
        }
    }
}

impl TraceState {
    #[verifier::type_invariant]
    closed spec fn inv(self) -> bool {
        trace_wf(self@)
    }

    /// Begins a trace against the given receiver id and reflection budget.
    pub fn new(receiver: u32, max_order: u32) -> (s: TraceState)
        ensures
            s@ == trace_init(receiver, max_order),
    {
        let s = TraceState { receiver, max_order, path: Vec::new(), hit_receiver: false };
        proof {
            assert(s@ =~= trace_init(receiver, max_order));
        }
        s
    }

    /// Whether the trace admits another strike.
    pub fn should_continue(&self) -> (c: bool)
        ensures
            c == trace_may_continue(self@),
    {
        (self.path.len() as u64) < (self.max_order as u64) && !self.hit_receiver
    }

    /// Records the next struck node.
    pub fn record_hit(&mut self, node: u32)
        requires
            trace_may_continue(old(self)@),
        ensures
            final(self)@ == trace_step(old(self)@, node),
    {
        proof {
            use_type_invariant(&*self);
        }
        let mut path: Vec<u32> = Vec::new();
        core::mem::swap(&mut path, &mut self.path);
        path.push(node);
        let hit = node == self.receiver;
        let next = TraceState {
            receiver: self.receiver,
            max_order: self.max_order,
            path,
            hit_receiver: hit,
        };
        proof {
            assert(trace_wf(next@)) by {
                assert forall|i: int|
                    0 <= i < next@.path.len() - 1 implies next@.path[i] != next@.receiver by {
                    assert(next@.path[i] == old(self)@.path[i]);
                    if i == old(self)@.path.len() - 1 {
                        assert(!(old(self)@.path.last() == old(self)@.receiver));
                    }
                }
            }
        }
        *self = next;
        proof {
            assert(self@ =~= trace_step(old(self)@, node));
        }
    }

    /// Ends the trace. The attempt succeeds exactly when the receiver was
    /// struck; the caller supplies the distance key it measured along the
    /// recorded path.
    pub fn finish(self, distance_key: u64) -> (r: Option<RayPath>)
        ensures
            match r {
                Some(p) => {
                    &&& self@.hit_receiver
                    &&& p.path@ == self@.path
                    &&& p.distance_key == distance_key
                    &&& 1 <= p.path@.len() <= self@.max_order
                    &&& p.path@.last() == self@.receiver
                    &&& forall|i: int|
                        0 <= i < p.path@.len() - 1 ==> p.path@[i] != self@.receiver
                },
                None => !self@.hit_receiver,
            },
    {
        proof {
            use_type_invariant(&self);
        }
        if self.hit_receiver {
            Some(RayPath { path: self.path, distance_key })
        } else {
            None
        }
    }
}

/// A render session: the scene, the receiver id, the collected paths and the
/// tracing settings.
pub struct AcousticRaytracer {
    pub root_node: SceneNode,
    pub receiver: u32,
    pub ray_paths: Vec<RayPath>,
    pub max_order: u32,
    pub ray_count: u64,
}

impl AcousticRaytracer {
    /// Builds a session over a finished scene.
    pub fn new(root_node: SceneNode, receiver: u32, max_order: u32, ray_count: u64) -> (t: Self)
        ensures
            t.root_node == root_node,
            t.receiver == receiver,
            t.max_order == max_order,
            t.ray_count == ray_count,
            t.ray_paths@.len() == 0,
    {
        Self { root_node, receiver, max_order, ray_count, ray_paths: Vec::new() }
    }

    /// Begins one ray trace under the session's settings.
    pub fn begin_trace(&self) -> (s: TraceState)
        ensures
            s@ == trace_init(self.receiver, self.max_order),
    {
        TraceState::new(self.receiver, self.max_order)
    }

    /// Whether the quota of successful paths has not yet been met.
    pub fn needs_more_paths(&self) -> (b: bool)
        ensures
            b == (self.ray_paths@.len() < self.ray_count),
    {
        (self.ray_paths.len() as u64) < self.ray_count
    }

    /// Appends a batch of successful paths to the store.
    pub fn store_batch(&mut self, batch: Vec<RayPath>)
        ensures
            final(self).ray_paths@ == old(self).ray_paths@ + batch@,
            final(self).root_node == old(self).root_node,
            final(self).receiver == old(self).receiver,
            final(self).max_order == old(self).max_order,
            final(self).ray_count == old(self).ray_count,
    {
        let mut batch = batch;
        self.ray_paths.append(&mut batch);
    }

    /// Orders the collected paths by distance, ascending; the collection is
    /// otherwise unchanged.
    pub fn sort_paths_by_distance(&mut self)
        ensures
            sorted_by_distance(final(self).ray_paths@),
            final(self).ray_paths@.to_multiset() == old(self).ray_paths@.to_multiset(),
            final(self).ray_paths@.len() == old(self).ray_paths@.len(),
            final(self).root_node == old(self).root_node,
            final(self).receiver == old(self).receiver,
            final(self).max_order == old(self).max_order,
            final(self).ray_count == old(self).ray_count,
    {
        sort_ray_paths(&mut self.ray_paths);
    }
}

impl Default for AcousticRaytracer {
    /// An empty scene with only a sphere receiver of id `1` under the root,
    /// and the stock settings.
    fn default() -> (t: AcousticRaytracer)
        ensures
            t.receiver == 1,
            t.max_order == 100,
            t.ray_count == 10000,
            t.ray_paths@.len() == 0,
            t.root_node.id == 0,
            t.root_node.children@.len() == 1,
            t.root_node.children@[0].id == 1,
            t.root_node.children@[0].primitive == Primitive::Sphere,
    {
        let mut root = SceneNode::new(0, "root node".to_string());
        let mut receiver = SceneNode::new(1, "receiver".to_string());
        receiver.primitive = Primitive::Sphere;
        root.add_child(receiver);
        AcousticRaytracer::new(root, 1, 100, 10000)
    }
}

fn sort_ray_paths(v: &mut Vec<RayPath>)
    ensures
        sorted_by_distance(final(v)@),
        final(v)@.to_multiset() == old(v)@.to_multiset(),
        final(v)@.len() == old(v)@.len(),
{
    broadcast use group_to_multiset_ensures;

    let n = v.len();
    if n <= 1 {
        return ;
    }
    let mut i: usize = 1;
    while i < n
        invariant
            1 <= i <= n,
            n == v@.len(),
            v@.len() == old(v)@.len(),
            forall|a: int, b: int|
                0 <= a <= b < i ==> #[trigger] v@[a].distance_key <= #[trigger] v@[b].distance_key,
            v@.to_multiset() == old(v)@.to_multiset(),
        decreases n - i,
    {
        let key = v[i].distance_key;
        let mut j: usize = i;
        while j > 0 && v[j - 1].distance_key > key
            invariant
                0 <= j <= i < v@.len(),
                key == v@[i as int].distance_key,
                forall|k: int| j <= k < i ==> #[trigger] v@[k].distance_key > key,
            decreases j,
        {
            j -= 1;
        }
        let ghost s = v@;
        let ghost ms = v@.to_multiset();
        let x = v.remove(i);
        v.insert(j, x);
        proof {
            let t = v@;
            assert(t =~= s.subrange(0, j as int) + seq![x] + s.subrange(j as int, i as int)
                + s.subrange(i as int + 1, s.len() as int));
            assert forall|a: int, b: int|
                0 <= a <= b < i + 1 implies t[a].distance_key <= t[b].distance_key by {
                assert(forall|k: int| 0 <= k < j ==> t[k] == s[k]);
                assert(t[j as int] == x);
                assert(forall|k: int| j < k <= i ==> t[k] == s[k - 1]);
                if j > 0 {
                    assert(s[j as int - 1].distance_key <= key);
                }
            }
            assert(s.remove(i as int).insert(j as int, x).to_multiset() =~= ms) by {
                vstd::seq_lib::to_multiset_remove(s, i as int);
                vstd::seq_lib::to_multiset_insert(s.remove(i as int), j as int, x);
                vstd::seq_lib::to_multiset_contains(s, x);
                assert(s.contains(s[i as int]));
                assert(ms.count(x) > 0);
                assert(ms.remove(x).insert(x) =~= ms);
            }
        }
        i += 1;
    }
}

} // verus!
