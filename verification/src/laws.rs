//! What holds of every planned frame, and of every frame recorded on
//! rend3's graph.

use vstd::prelude::*;
use vstd::seq_lib::lemma_multiset_commutative;
use crate::backend::{
    cull_node, culling_nodes, fixed_stage_groups, fixed_stage_nodes, forward_nodes, frame_layout,
    frame_nodes, frame_output, graph_data_count, graph_nodes, graph_shadows, graph_targets,
    pre_cull_node, prepass_nodes, present_node, shadow_cameras, shadow_culling_nodes,
    uniform_node, NoOverlay, OverlayRoutine, RecordedNode, Slot, StateLayout,
};
use crate::compose::{composed, fixed_nodes, frame_state, output_handle};
use crate::graph::{lemma_well_formed_is_ordered, GraphView, NodeLabel};
use crate::resource::{
    AmbientLight, GraphResource, HandleKind, ReadySnapshot, Resolution, ResourceDesc, SampleCount,
};
use crate::routine::{overlay_node, overlay_nodes, Routine};
use crate::state::tonemap_node;

verus! {

/// Each node of `p` produces a handle that the next one consumes.
pub open spec fn is_path(g: GraphView, p: Seq<int>) -> bool {
    forall|k: int| 0 <= k < p.len() - 1 ==> g.edge(#[trigger] p[k], p[k + 1])
}

/// No chain of dependencies leads from a node back to itself.
pub open spec fn acyclic(g: GraphView) -> bool {
    forall|p: Seq<int>| p.len() >= 2 && #[trigger] is_path(g, p) ==> p.first() != p.last()
}

/// Some node at a position from `from` on and before `j` produces `r`.
pub open spec fn produced_between(g: GraphView, from: int, j: int, r: GraphResource) -> bool {
    exists|i: int| from <= i < j && i < g.nodes.len() && #[trigger] g.nodes[i].writes.contains(r)
}

/// Some node after position `i` consumes `r`.
pub open spec fn consumed_after(g: GraphView, i: int, r: GraphResource) -> bool {
    exists|j: int| i < j < g.nodes.len() && #[trigger] g.nodes[j].reads.contains(r)
}

/// Along a chain of dependencies in a well-formed graph the positions of the
/// nodes grow.
pub proof fn lemma_path_ascends(g: GraphView, p: Seq<int>)
    requires
        g.wf(),
        is_path(g, p),
        p.len() >= 2,
    ensures
        p.first() < p.last(),
    decreases p.len(),
{
    let n = p.len() as int;
    lemma_well_formed_is_ordered(g);
    assert(g.edge(p[n - 2], p[n - 1]));
    if n > 2 {
        let q = p.drop_last();
        assert forall|k: int| 0 <= k < q.len() - 1 implies g.edge(#[trigger] q[k], q[k + 1]) by {
            assert(g.edge(p[k], p[k + 1]));
        }
        lemma_path_ascends(g, q);
    }
}

/// Acyclicity: in a well-formed graph the relation between the producer of a
/// handle and its consumers has no cycle. Every composed graph is
/// well-formed.
pub proof fn lemma_well_formed_is_acyclic(g: GraphView)
    requires
        g.wf(),
    ensures
        acyclic(g),
{
    assert forall|p: Seq<int>| p.len() >= 2 && #[trigger] is_path(g, p) implies p.first()
        != p.last() by {
        lemma_path_ascends(g, p);
    }
}

/// Every composed frame is well-formed, and so acyclic: if the graph was
/// well-formed before and the handles of the frame fit the machine's
/// indices, the graph with the frame in it names known handles only,
/// produces no handle twice and has each producer before its consumers; and
/// what a node of the frame consumes, a node of the same frame produced.
pub proof fn lemma_composed_is_well_formed(
    g: GraphView,
    ready: ReadySnapshot,
    routines: Seq<Routine>,
    resolution: Resolution,
    samples: SampleCount,
    ambient: AmbientLight,
)
    requires
        g.wf(),
        g.resources.len() + ready.directional_lights + 6 <= usize::MAX,
    ensures
        composed(g, ready, routines, resolution, samples, ambient).wf(),
        acyclic(composed(g, ready, routines, resolution, samples, ambient)),
        forall|j: int, r: GraphResource|
            g.nodes.len() <= j < g.nodes.len() + routines.len() + 7 && #[trigger] composed(
                g,
                ready,
                routines,
                resolution,
                samples,
                ambient,
            ).nodes[j].reads.contains(r) ==> produced_between(
                composed(g, ready, routines, resolution, samples, ambient),
                g.nodes.len() as int,
                j,
                r,
            ),
{
    let c = composed(g, ready, routines, resolution, samples, ambient);
    let s = frame_state(g.resources.len(), ready, resolution, samples);
    let base = g.resources.len() as int;
    let n = ready.directional_lights as int;
    let m = g.nodes.len() as int;
    let count = routines.len() as int;
    let f = fixed_nodes(s);
    let buffer = s.object_buffer->0.resource();
    let uniforms = s.frame_uniforms->0.resource();
    let culled = s.culled->0.resource();
    let depth = s.depth->0.resource();
    let color = s.color->0.resource();
    let output = output_handle(g.resources.len(), ready).resource();

    assert(c.resources.len() == base + n + 6);
    assert(c.nodes.len() == m + count + 7);
    assert(c.holds(buffer));
    assert(c.holds(uniforms));
    assert(c.holds(culled));
    assert(c.holds(depth));
    assert(c.holds(color));
    assert(c.holds(output));
    assert forall|r: GraphResource| g.holds(r) implies c.holds(r) by {
        assert(c.resources[r.index as int] == g.resources[r.index as int]);
    }
    assert forall|r: GraphResource| #[trigger] f[2].writes.contains(r) implies c.holds(r) && base
        + 2 <= r.index < base + 2 + n by {
        let i = choose|i: int| 0 <= i < f[2].writes.len() && f[2].writes[i] == r;
        assert(r.index == base + 2 + i);
        assert(c.resources[base + 2 + i] == ResourceDesc::CulledObjectList);
    }

    // The producers of the frame's handles.
    assert(c.nodes[m] == f[0] && c.nodes[m + 1] == f[1] && c.nodes[m + 3] == f[3]);
    assert(c.nodes[m + 4] == f[4] && c.nodes[m + 5] == f[5]);
    assert(c.nodes[m].writes[0] == buffer);
    assert(c.nodes[m + 1].writes[0] == uniforms);
    assert(c.nodes[m + 3].writes[0] == culled);
    assert(c.nodes[m + 4].writes[0] == depth);
    assert(c.nodes[m + 5].writes[0] == color);
    assert(c.nodes[m].writes.contains(buffer));
    assert(c.nodes[m + 1].writes.contains(uniforms));
    assert(c.nodes[m + 3].writes.contains(culled));
    assert(c.nodes[m + 4].writes.contains(depth));
    assert(c.nodes[m + 5].writes.contains(color));

    // What each node of the frame reads and writes.
    assert forall|j: int, r: GraphResource|
        m <= j < c.nodes.len() && #[trigger] c.nodes[j].reads.contains(r) implies c.holds(r)
        && c.produced_before(j, r) && produced_between(c, m, j, r) by {
        let k = choose|k: int| 0 <= k < c.nodes[j].reads.len() && c.nodes[j].reads[k] == r;
        if j < m + 6 {
            assert(c.nodes[j] == f[j - m]);
            if j == m + 2 || j == m + 3 {
                assert(r == buffer);
            } else if j == m + 4 {
                assert(r == culled);
            } else if j == m + 5 {
                assert(r == culled || r == uniforms || r == depth);
            }
        } else if j < m + 6 + count {
            assert(c.nodes[j] == overlay_node(routines[j - m - 6].kind, s));
            assert(r == uniforms || r == depth || r == color);
        } else {
            assert(c.nodes[j] == tonemap_node(s.color->0, output_handle(g.resources.len(), ready)));
            assert(r == color);
        }
    }
    assert forall|j: int, r: GraphResource|
        m <= j < c.nodes.len() && #[trigger] c.nodes[j].writes.contains(r) implies c.holds(r)
        && r.index >= base && (j == m ==> r == buffer) && (j == m + 1 ==> r == uniforms) && (j
        == m + 2 ==> base + 2 <= r.index < base + 2 + n) && (j == m + 3 ==> r == culled) && (j
        == m + 4 ==> r == depth) && (j == m + 5 ==> r == color) && (j >= m + 6 ==> r == output
        && j == m + 6 + count) by {
        let k = choose|k: int| 0 <= k < c.nodes[j].writes.len() && c.nodes[j].writes[k] == r;
        if j < m + 6 {
            assert(c.nodes[j] == f[j - m]);
            if j == m + 2 {
                assert(f[2].writes.contains(r));
            }
        } else if j < m + 6 + count {
            assert(c.nodes[j] == overlay_node(routines[j - m - 6].kind, s));
        } else {
            assert(c.nodes[j] == tonemap_node(s.color->0, output_handle(g.resources.len(), ready)));
        }
    }

    assert forall|j: int| 0 <= j < c.nodes.len() implies c.names_known(#[trigger] c.nodes[j]) by {
        if j < m {
            assert(c.nodes[j] == g.nodes[j]);
            assert(g.names_known(g.nodes[j]));
        }
    }
    assert forall|j: int, r: GraphResource|
        0 <= j < c.nodes.len() && #[trigger] c.nodes[j].reads.contains(r) implies c.produced_before(
        j,
        r,
    ) by {
        if j < m {
            assert(c.nodes[j] == g.nodes[j]);
            assert(g.produced_before(j, r));
            let i = choose|i: int|
                0 <= i < j && i < g.nodes.len() && #[trigger] g.nodes[i].writes.contains(r);
            assert(c.nodes[i] == g.nodes[i]);
        }
    }
    assert forall|i: int, k: int, r: GraphResource|
        0 <= i < c.nodes.len() && 0 <= k < c.nodes.len() && #[trigger] c.nodes[i].writes.contains(r)
            && #[trigger] c.nodes[k].writes.contains(r) implies i == k by {
        if i < m {
            assert(c.nodes[i] == g.nodes[i]);
            assert(g.names_known(g.nodes[i]));
            assert(g.holds(r));
        }
        if k < m {
            assert(c.nodes[k] == g.nodes[k]);
            assert(g.names_known(g.nodes[k]));
            assert(g.holds(r));
        }
    }
    lemma_well_formed_is_acyclic(c);
}

/// Composition only appends: the resources and nodes that the graph held
/// stay where they were, unchanged.
pub proof fn lemma_composition_appends(
    g: GraphView,
    ready: ReadySnapshot,
    routines: Seq<Routine>,
    resolution: Resolution,
    samples: SampleCount,
    ambient: AmbientLight,
)
    ensures
        composed(g, ready, routines, resolution, samples, ambient).resources.subrange(
            0,
            g.resources.len() as int,
        ) == g.resources,
        composed(g, ready, routines, resolution, samples, ambient).nodes.subrange(
            0,
            g.nodes.len() as int,
        ) == g.nodes,
{
    let c = composed(g, ready, routines, resolution, samples, ambient);
    assert(c.resources.subrange(0, g.resources.len() as int) =~= g.resources);
    assert(c.nodes.subrange(0, g.nodes.len() as int) =~= g.nodes);
}

/// Determinism: two compositions with the same snapshot, routines,
/// resolution, sample count and ambient light, each on a graph of its own
/// that holds the same nodes and as many resources as the other, give the
/// same nodes, hence the same number of nodes and the same dependency edges.
/// The number of nodes is seven more than before, plus one for each routine.
pub proof fn lemma_composition_is_deterministic(
    g1: GraphView,
    g2: GraphView,
    ready: ReadySnapshot,
    routines: Seq<Routine>,
    resolution: Resolution,
    samples: SampleCount,
    ambient: AmbientLight,
)
    requires
        g1.nodes == g2.nodes,
        g1.resources.len() == g2.resources.len(),
    ensures
        ({
            let first = composed(g1, ready, routines, resolution, samples, ambient);
            let second = composed(g2, ready, routines, resolution, samples, ambient);
            &&& first.nodes == second.nodes
            &&& first.nodes.len() == second.nodes.len()
            &&& first.nodes.len() == g1.nodes.len() + 7 + routines.len()
            &&& first.edges() == second.edges()
            &&& g1 == g2 ==> first == second
        }),
{
    let first = composed(g1, ready, routines, resolution, samples, ambient);
    let second = composed(g2, ready, routines, resolution, samples, ambient);
    assert(first.nodes == second.nodes);
    assert(first.edges() =~= second.edges());
}

/// Zero-routine baseline: without routines the frame is the six fixed stages
/// in their order and then the tonemap; every handle that one of these nodes
/// consumes was produced by one of them before it; the object buffer, the frame
/// uniforms, the visible-object list, the depth buffer and the colour target
/// are each consumed by a later node; and the last node fills the output
/// target.
pub proof fn lemma_zero_routine_baseline(
    g: GraphView,
    ready: ReadySnapshot,
    resolution: Resolution,
    samples: SampleCount,
    ambient: AmbientLight,
)
    ensures
        ({
            let c = composed(g, ready, Seq::<Routine>::empty(), resolution, samples, ambient);
            let s = frame_state(g.resources.len(), ready, resolution, samples);
            let m = g.nodes.len() as int;
            &&& c.nodes.len() == m + 7
            &&& c.nodes.subrange(0, m) == g.nodes
            &&& c.nodes[m].label == NodeLabel::PreCulling
            &&& c.nodes[m + 1].label == NodeLabel::FrameUniforms
            &&& c.nodes[m + 2].label == NodeLabel::ShadowCulling
            &&& c.nodes[m + 3].label == NodeLabel::Culling
            &&& c.nodes[m + 4].label == NodeLabel::Prepass
            &&& c.nodes[m + 5].label == NodeLabel::Forward
            &&& c.nodes[m + 6].label == NodeLabel::Tonemap
            &&& forall|j: int, r: GraphResource|
                m <= j < m + 7 && #[trigger] c.nodes[j].reads.contains(r) ==> produced_between(
                    c,
                    m,
                    j,
                    r,
                )
            &&& consumed_after(c, m, s.object_buffer->0.resource())
            &&& consumed_after(c, m + 1, s.frame_uniforms->0.resource())
            &&& consumed_after(c, m + 3, s.culled->0.resource())
            &&& consumed_after(c, m + 4, s.depth->0.resource())
            &&& consumed_after(c, m + 5, s.color->0.resource())
            &&& c.nodes[m + 6].writes == seq![output_handle(g.resources.len(), ready).resource()]
        }),
{
    let c = composed(g, ready, Seq::<Routine>::empty(), resolution, samples, ambient);
    let s = frame_state(g.resources.len(), ready, resolution, samples);
    let m = g.nodes.len() as int;
    let f = fixed_nodes(s);
    assert(c.nodes.subrange(0, m) =~= g.nodes);
    assert(c.nodes[m] == f[0]);
    assert(c.nodes[m + 1] == f[1]);
    assert(c.nodes[m + 2] == f[2]);
    assert(c.nodes[m + 3] == f[3]);
    assert(c.nodes[m + 4] == f[4]);
    assert(c.nodes[m + 5] == f[5]);
    let buffer = s.object_buffer->0.resource();
    let uniforms = s.frame_uniforms->0.resource();
    let culled = s.culled->0.resource();
    let depth = s.depth->0.resource();
    let color = s.color->0.resource();
    assert(c.nodes[m].writes[0] == buffer);
    assert(c.nodes[m + 1].writes[0] == uniforms);
    assert(c.nodes[m + 3].writes[0] == culled);
    assert(c.nodes[m + 4].writes[0] == depth);
    assert(c.nodes[m + 5].writes[0] == color);
    assert(c.nodes[m].writes.contains(buffer));
    assert(c.nodes[m + 1].writes.contains(uniforms));
    assert(c.nodes[m + 3].writes.contains(culled));
    assert(c.nodes[m + 4].writes.contains(depth));
    assert(c.nodes[m + 5].writes.contains(color));
    assert forall|j: int, r: GraphResource|
        m <= j < m + 7 && #[trigger] c.nodes[j].reads.contains(r) implies produced_between(
        c,
        m,
        j,
        r,
    ) by {
        let k = choose|k: int| 0 <= k < c.nodes[j].reads.len() && c.nodes[j].reads[k] == r;
        if j == m + 2 || j == m + 3 {
            assert(r == buffer);
        } else if j == m + 4 {
            assert(r == culled);
        } else if j == m + 5 {
            assert(r == culled || r == uniforms || r == depth);
        } else if j == m + 6 {
            assert(r == color);
        }
    }
    assert(c.nodes[m + 2].reads[0] == buffer);
    assert(c.nodes[m + 2].reads.contains(buffer));
    assert(c.nodes[m + 5].reads[0] == culled);
    assert(c.nodes[m + 5].reads[1] == uniforms);
    assert(c.nodes[m + 5].reads[2] == depth);
    assert(c.nodes[m + 5].reads.contains(culled));
    assert(c.nodes[m + 5].reads.contains(uniforms));
    assert(c.nodes[m + 5].reads.contains(depth));
    assert(c.nodes[m + 6].reads[0] == color);
    assert(c.nodes[m + 6].reads.contains(color));
}

/// Routine independence: whichever of two lists of routines attaches first,
/// the frame registers the same resources and holds the same nodes, up to
/// the order in which they were added.
pub proof fn lemma_routine_order_is_irrelevant(
    g: GraphView,
    ready: ReadySnapshot,
    a: Seq<Routine>,
    b: Seq<Routine>,
    resolution: Resolution,
    samples: SampleCount,
    ambient: AmbientLight,
)
    ensures
        composed(g, ready, a + b, resolution, samples, ambient).resources == composed(
            g,
            ready,
            b + a,
            resolution,
            samples,
            ambient,
        ).resources,
        composed(g, ready, a + b, resolution, samples, ambient).nodes.to_multiset() == composed(
            g,
            ready,
            b + a,
            resolution,
            samples,
            ambient,
        ).nodes.to_multiset(),
{
    let s = frame_state(g.resources.len(), ready, resolution, samples);
    let ab = composed(g, ready, a + b, resolution, samples, ambient).nodes;
    let ba = composed(g, ready, b + a, resolution, samples, ambient).nodes;
    let head = g.nodes + fixed_nodes(s);
    let tail = ab.subrange(ab.len() - 1, ab.len() as int);
    let oa = overlay_nodes(a, s);
    let ob = overlay_nodes(b, s);
    assert(overlay_nodes(a + b, s) =~= oa + ob);
    assert(overlay_nodes(b + a, s) =~= ob + oa);
    assert(ab =~= (head + (oa + ob)) + tail);
    assert(ba =~= (head + (ob + oa)) + tail);
    lemma_multiset_commutative(oa, ob);
    lemma_multiset_commutative(ob, oa);
    lemma_multiset_commutative(head, oa + ob);
    lemma_multiset_commutative(head, ob + oa);
    lemma_multiset_commutative(head + (oa + ob), tail);
    lemma_multiset_commutative(head + (ob + oa), tail);
    assert(oa.to_multiset().add(ob.to_multiset()) =~= ob.to_multiset().add(oa.to_multiset()));
    assert(ab.to_multiset() =~= ba.to_multiset());
}

/// Without overlays a recorded frame is the six fixed stages in their
/// order and then the tonemap. On rend3's graph a stage is a group of nodes:
/// three, one, two per shadow camera, three, two and three.
pub proof fn lemma_recorded_frame_without_overlays(
    before: Seq<RecordedNode>,
    l: StateLayout,
    gpu: bool,
    shadows: Set<nat>,
    output: Slot,
)
    ensures
        frame_nodes(before, l, gpu, shadows, &NoOverlay, &NoOverlay, &NoOverlay, output) == (before
            + fixed_stage_nodes(l, gpu, shadows)).push(present_node(l, output)),
        fixed_stage_groups(l, gpu, shadows).len() == 6,
        fixed_stage_groups(l, gpu, shadows)[0].len() == 3,
        fixed_stage_groups(l, gpu, shadows)[1].len() == 1,
        fixed_stage_groups(l, gpu, shadows)[2].len() == 2 * l.shadows,
        fixed_stage_groups(l, gpu, shadows)[3].len() == 3,
        fixed_stage_groups(l, gpu, shadows)[4].len() == 2,
        fixed_stage_groups(l, gpu, shadows)[5].len() == 3,
        fixed_stage_nodes(l, gpu, shadows).len() == 12 + 2 * l.shadows,
{
    let fixed = before + fixed_stage_nodes(l, gpu, shadows);
    let none = Seq::<RecordedNode>::empty();
    assert(fixed + none =~= fixed);
}

/// Every handle that the frame needs later is consumed later: the forward
/// uniforms and each kind's culled list by the kind's forward node, the
/// culled lists of the first two kinds by their prepass nodes, what the last
/// forward node draws by the tonemap, which fills the output target.
pub proof fn lemma_recorded_handles_are_consumed(
    l: StateLayout,
    gpu: bool,
    shadows: Set<nat>,
    output: Slot,
)
    ensures
        ({
            let f = fixed_stage_nodes(l, gpu, shadows).push(present_node(l, output));
            let n = l.shadows as int;
            &&& f.len() == 13 + 2 * n
            &&& f[3].outputs.contains(l.forward_uniforms())
            &&& forall|kind: int|
                0 <= kind < 3 ==> (#[trigger] f[4 + 2 * n + kind]).outputs.contains(
                    l.cull(kind as nat),
                ) && f[9 + 2 * n + kind].inputs.contains(l.cull(kind as nat)) && f[9 + 2 * n
                    + kind].inputs.contains(l.forward_uniforms())
            &&& forall|kind: int|
                0 <= kind < 2 ==> (#[trigger] f[7 + 2 * n + kind]).inputs.contains(
                    l.cull(kind as nat),
                )
            &&& f[11 + 2 * n].outputs.contains(l.presented())
            &&& f[12 + 2 * n].inputs.contains(l.presented())
            &&& f[12 + 2 * n].outputs == set![output]
        }),
{
    let f = fixed_stage_nodes(l, gpu, shadows).push(present_node(l, output));
    let n = l.shadows as int;
    assert(f[3] == uniform_node(l));
    assert forall|kind: int| 0 <= kind < 3 implies (#[trigger] f[4 + 2 * n + kind]).outputs.contains(
        l.cull(kind as nat),
    ) && f[9 + 2 * n + kind].inputs.contains(l.cull(kind as nat)) && f[9 + 2 * n
        + kind].inputs.contains(l.forward_uniforms()) by {
        assert(f[4 + 2 * n + kind] == culling_nodes(l, gpu)[kind]);
        assert(f[9 + 2 * n + kind] == forward_nodes(l, shadows)[kind]);
    }
    assert forall|kind: int| 0 <= kind < 2 implies (#[trigger] f[7 + 2 * n + kind]).inputs.contains(
        l.cull(kind as nat),
    ) by {
        assert(f[7 + 2 * n + kind] == prepass_nodes(l)[kind]);
    }
    assert(f[11 + 2 * n] == forward_nodes(l, shadows)[2]);
    assert(f[12 + 2 * n] == present_node(l, output));
}

/// Routine independence: where what each routine records does not depend
/// on the nodes before it, two routines that change places leave the same
/// nodes in the frame, up to the order in which they were added.
pub proof fn lemma_recorded_routine_order<A: OverlayRoutine, B: OverlayRoutine, G: OverlayRoutine>(
    before: Seq<RecordedNode>,
    l: StateLayout,
    gpu: bool,
    shadows: Set<nat>,
    a: &A,
    b: &B,
    g: &G,
    output: Slot,
)
    requires
        forall|x: Seq<RecordedNode>, y: Seq<RecordedNode>|
            #[trigger] a.appended(x, l) == #[trigger] a.appended(y, l),
        forall|x: Seq<RecordedNode>, y: Seq<RecordedNode>|
            #[trigger] b.appended(x, l) == #[trigger] b.appended(y, l),
        forall|x: Seq<RecordedNode>, y: Seq<RecordedNode>|
            #[trigger] g.appended(x, l) == #[trigger] g.appended(y, l),
    ensures
        frame_nodes(before, l, gpu, shadows, a, b, g, output).to_multiset() == frame_nodes(
            before,
            l,
            gpu,
            shadows,
            b,
            a,
            g,
            output,
        ).to_multiset(),
        frame_nodes(before, l, gpu, shadows, a, b, g, output).len() == frame_nodes(
            before,
            l,
            gpu,
            shadows,
            b,
            a,
            g,
            output,
        ).len(),
{
    let fixed = before + fixed_stage_nodes(l, gpu, shadows);
    let na = a.appended(fixed, l);
    let nb = b.appended(fixed, l);
    let ng = g.appended(fixed, l);
    let tail = ng.push(present_node(l, output));
    let ab = frame_nodes(before, l, gpu, shadows, a, b, g, output);
    let ba = frame_nodes(before, l, gpu, shadows, b, a, g, output);
    assert(b.appended(fixed + na, l) == nb);
    assert(a.appended(fixed + nb, l) == na);
    assert(g.appended(fixed + na + nb, l) == ng);
    assert(g.appended(fixed + nb + na, l) == ng);
    assert(ab =~= (fixed + (na + nb)) + tail);
    assert(ba =~= (fixed + (nb + na)) + tail);
    lemma_multiset_commutative(na, nb);
    lemma_multiset_commutative(nb, na);
    lemma_multiset_commutative(fixed, na + nb);
    lemma_multiset_commutative(fixed, nb + na);
    lemma_multiset_commutative(fixed + (na + nb), tail);
    lemma_multiset_commutative(fixed + (nb + na), tail);
    assert(na.to_multiset().add(nb.to_multiset()) =~= nb.to_multiset().add(na.to_multiset()));
    assert(ab.to_multiset() =~= ba.to_multiset());
}

/// What a node of the recorded frame reads was written by a node of the
/// frame at or before it, but for the skinned data, which no stage of this
/// frame fills, and the shadow maps, which the frame does not draw. A
/// drawing node reads the targets it writes.
pub proof fn lemma_recorded_reads_are_produced(
    l: StateLayout,
    gpu: bool,
    shadows: Set<nat>,
    output: Slot,
)
    ensures
        ({
            let f = fixed_stage_nodes(l, gpu, shadows).push(present_node(l, output));
            forall|j: int, s: Slot|
                0 <= j < f.len() && #[trigger] f[j].inputs.contains(s) ==> s == l.skinned()
                    || s is Shadow || written_by(f, j, s)
        }),
{
    let f = fixed_stage_nodes(l, gpu, shadows).push(present_node(l, output));
    let n = l.shadows as int;
    let sc = shadow_culling_nodes(l, gpu);
    assert(f.len() == 13 + 2 * n);
    assert(f[0] == pre_cull_node(l, 0) && f[1] == pre_cull_node(l, 1) && f[2] == pre_cull_node(
        l,
        2,
    ));
    assert(f[3] == uniform_node(l));
    assert(f[4 + 2 * n] == culling_nodes(l, gpu)[0]);
    assert(f[5 + 2 * n] == culling_nodes(l, gpu)[1]);
    assert(f[6 + 2 * n] == culling_nodes(l, gpu)[2]);
    assert(f[11 + 2 * n] == forward_nodes(l, shadows)[2]);
    assert(f[0].outputs.contains(l.pre_cull(0)));
    assert(f[1].outputs.contains(l.pre_cull(1)));
    assert(f[2].outputs.contains(l.pre_cull(2)));
    assert(f[3].outputs.contains(l.forward_uniforms()));
    assert(f[3].outputs.contains(l.shadow_uniforms()));
    assert(f[4 + 2 * n].outputs.contains(l.cull(0)));
    assert(f[5 + 2 * n].outputs.contains(l.cull(1)));
    assert(f[6 + 2 * n].outputs.contains(l.cull(2)));
    assert(f[11 + 2 * n].outputs.contains(l.presented()));
    assert forall|j: int, s: Slot| 0 <= j < f.len() && #[trigger] f[j].inputs.contains(s) implies s
        == l.skinned() || s is Shadow || written_by(f, j, s) by {
        if j < 4 {
            assert(f[j].outputs.contains(s));
        } else if j < 4 + 2 * n {
            assert(f[j] == sc[j - 4]);
            if j - 4 < n {
                assert(sc[j - 4] == cull_node(
                    l,
                    l.pre_cull(0),
                    l.shadow_cull(0, (j - 4) as nat),
                    gpu,
                ));
            } else {
                assert(sc[j - 4] == cull_node(
                    l,
                    l.pre_cull(1),
                    l.shadow_cull(1, (j - 4 - n) as nat),
                    gpu,
                ));
            }
            if s != l.skinned() && !f[j].outputs.contains(s) {
                assert(s == l.pre_cull(0) || s == l.pre_cull(1));
            }
        } else if j < 7 + 2 * n {
            assert(f[j] == culling_nodes(l, gpu)[j - 4 - 2 * n]);
            if s != l.skinned() && !f[j].outputs.contains(s) {
                assert(s == l.pre_cull(0) || s == l.pre_cull(1) || s == l.pre_cull(2));
            }
        } else if j < 9 + 2 * n {
            assert(f[j] == prepass_nodes(l)[j - 7 - 2 * n]);
            if !f[j].outputs.contains(s) {
                assert(s == l.forward_uniforms() || s == l.cull(0) || s == l.cull(1));
            }
        } else if j < 12 + 2 * n {
            assert(f[j] == forward_nodes(l, shadows)[j - 9 - 2 * n]);
            if !f[j].outputs.contains(s) && !(s is Shadow) {
                assert(s == l.forward_uniforms() || s == l.cull(0) || s == l.cull(1) || s
                    == l.cull(2));
            }
        } else {
            assert(f[j] == present_node(l, output));
            if !f[j].outputs.contains(s) {
                assert(s == l.presented() || s == l.forward_uniforms());
            }
        }
    }
}

/// Some node of `f` at or before position `j` has `s` among its outputs.
pub open spec fn written_by(f: Seq<RecordedNode>, j: int, s: Slot) -> bool {
    exists|i: int| 0 <= i <= j && i < f.len() && #[trigger] f[i].outputs.contains(s)
}

/// Some node of `a` writes what some node of `b` reads.
pub open spec fn group_feeds(a: Seq<RecordedNode>, b: Seq<RecordedNode>) -> bool {
    exists|i: int, j: int, s: Slot|
        0 <= i < a.len() && 0 <= j < b.len() && #[trigger] a[i].outputs.contains(s)
            && #[trigger] b[j].inputs.contains(s)
}

/// The planned dependencies are recorded. The plan has seven dependencies
/// among the fixed stages and the tonemap; for each of them, the group of
/// nodes recorded for the first stage writes what the group recorded for the
/// second reads. The uploaded objects are the exception where culling runs
/// on the CPU, and shadow culling where no camera casts a shadow.
pub proof fn lemma_recorded_groups_follow_the_plan(
    plan: GraphView,
    ready: ReadySnapshot,
    routines: Seq<Routine>,
    resolution: Resolution,
    samples: SampleCount,
    ambient: AmbientLight,
    l: StateLayout,
    gpu: bool,
    shadows: Set<nat>,
    output: Slot,
)
    ensures
        ({
            let c = composed(plan, ready, routines, resolution, samples, ambient);
            let m = plan.nodes.len() as int;
            let t = m + 6 + routines.len();
            let g = fixed_stage_groups(l, gpu, shadows);
            let last = seq![present_node(l, output)];
            &&& c.edge(m, m + 2) && (gpu && l.shadows > 0 ==> group_feeds(g[0], g[2]))
            &&& c.edge(m, m + 3) && (gpu ==> group_feeds(g[0], g[3]))
            &&& c.edge(m + 1, m + 5) && group_feeds(g[1], g[5])
            &&& c.edge(m + 3, m + 4) && group_feeds(g[3], g[4])
            &&& c.edge(m + 3, m + 5) && group_feeds(g[3], g[5])
            &&& c.edge(m + 4, m + 5) && group_feeds(g[4], g[5])
            &&& c.edge(m + 5, t) && group_feeds(g[5], last)
        }),
{
    let g = fixed_stage_groups(l, gpu, shadows);
    let last = seq![present_node(l, output)];
    if gpu {
        assert(g[0][0].outputs.contains(l.pre_cull(0)));
        assert(g[3][0].inputs.contains(l.pre_cull(0)));
        if l.shadows > 0 {
            assert(g[2][0] == cull_node(l, l.pre_cull(0), l.shadow_cull(0, 0), gpu));
            assert(g[2][0].inputs.contains(l.pre_cull(0)));
        }
    }
    assert(g[1][0].outputs.contains(l.forward_uniforms()));
    assert(g[5][0].inputs.contains(l.forward_uniforms()));
    assert(g[3][0].outputs.contains(l.cull(0)));
    assert(g[4][0].inputs.contains(l.cull(0)));
    assert(g[5][0].inputs.contains(l.cull(0)));
    assert(g[4][0].outputs.contains(l.depth()));
    assert(g[5][0].inputs.contains(l.depth()));
    assert(g[5][0].outputs.contains(l.presented()));
    assert(last[0].inputs.contains(l.presented()));

    let c = composed(plan, ready, routines, resolution, samples, ambient);
    let s = frame_state(plan.resources.len(), ready, resolution, samples);
    let m = plan.nodes.len() as int;
    let t = m + 6 + routines.len();
    let f = fixed_nodes(s);
    let buffer = s.object_buffer->0.resource();
    let uniforms = s.frame_uniforms->0.resource();
    let culled = s.culled->0.resource();
    let depth = s.depth->0.resource();
    let color = s.color->0.resource();
    assert(c.nodes[m] == f[0] && c.nodes[m + 1] == f[1] && c.nodes[m + 2] == f[2]);
    assert(c.nodes[m + 3] == f[3] && c.nodes[m + 4] == f[4] && c.nodes[m + 5] == f[5]);
    assert(c.nodes[t] == tonemap_node(s.color->0, output_handle(plan.resources.len(), ready)));
    assert(c.nodes[m].writes[0] == buffer && c.nodes[m].writes.contains(buffer));
    assert(c.nodes[m + 1].writes[0] == uniforms && c.nodes[m + 1].writes.contains(uniforms));
    assert(c.nodes[m + 3].writes[0] == culled && c.nodes[m + 3].writes.contains(culled));
    assert(c.nodes[m + 4].writes[0] == depth && c.nodes[m + 4].writes.contains(depth));
    assert(c.nodes[m + 5].writes[0] == color && c.nodes[m + 5].writes.contains(color));
    assert(c.nodes[m + 2].reads[0] == buffer && c.nodes[m + 2].reads.contains(buffer));
    assert(c.nodes[m + 3].reads[0] == buffer && c.nodes[m + 3].reads.contains(buffer));
    assert(c.nodes[m + 4].reads[0] == culled && c.nodes[m + 4].reads.contains(culled));
    assert(c.nodes[m + 5].reads[0] == culled && c.nodes[m + 5].reads.contains(culled));
    assert(c.nodes[m + 5].reads[1] == uniforms && c.nodes[m + 5].reads.contains(uniforms));
    assert(c.nodes[m + 5].reads[2] == depth && c.nodes[m + 5].reads.contains(depth));
    assert(c.nodes[t].reads[0] == color && c.nodes[t].reads.contains(color));
}

/// Determinism: two graphs that hold the same nodes and shadow maps and as
/// many data slots and targets as each other get the same nodes from the
/// same frame.
pub proof fn lemma_recorded_frame_is_determined<W: OverlayRoutine, P: OverlayRoutine, G: OverlayRoutine>(
    g1: rend3::graph::RenderGraph<'_>,
    g2: rend3::graph::RenderGraph<'_>,
    r1: rend3::graph::ReadyData,
    r2: rend3::graph::ReadyData,
    samples: SampleCount,
    gpu: bool,
    wireframe: &W,
    point_cloud: &P,
    grid: &G,
)
    requires
        graph_nodes(g1) == graph_nodes(g2),
        graph_shadows(g1) == graph_shadows(g2),
        graph_data_count(g1) == graph_data_count(g2),
        graph_targets(g1).len() == graph_targets(g2).len(),
        shadow_cameras(r1) == shadow_cameras(r2),
    ensures
        frame_nodes(
            graph_nodes(g1),
            frame_layout(g1, r1, samples),
            gpu,
            graph_shadows(g1),
            wireframe,
            point_cloud,
            grid,
            frame_output(g1, samples),
        ) == frame_nodes(
            graph_nodes(g2),
            frame_layout(g2, r2, samples),
            gpu,
            graph_shadows(g2),
            wireframe,
            point_cloud,
            grid,
            frame_output(g2, samples),
        ),
{
}

} // verus!
