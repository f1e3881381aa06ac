//! The append-only frame graph: a resource table and a list of nodes.

use vstd::prelude::*;
use crate::resource::{
    BufferHandle, CulledObjectListHandle, FrameUniforms, GraphResource, HandleKind,
    RenderTargetDescriptor, TargetHandle, ResourceDesc, UniformsHandle,
};
use crate::routine::RoutineKind;

verus! {

/// Which stage or routine a node belongs to.
#[derive(Clone, Copy, Debug, PartialEq, Eq, Structural)]
pub enum NodeLabel {
    PreCulling,
    FrameUniforms,
    ShadowCulling,
    Culling,
    Prepass,
    Forward,
    Overlay(RoutineKind),
    Tonemap,
}

/// A unit of GPU work with the handles it consumes and produces.
#[derive(Debug)]
pub struct Node {
    pub label: NodeLabel,
    pub reads: Vec<GraphResource>,
    pub writes: Vec<GraphResource>,
}

/// A node as contracts see it.
pub struct NodeView {
    pub label: NodeLabel,
    pub reads: Seq<GraphResource>,
    pub writes: Seq<GraphResource>,
}

impl View for Node {
    type V = NodeView;

    open spec fn view(&self) -> NodeView {
        NodeView { label: self.label, reads: self.reads@, writes: self.writes@ }
    }
}

/// A graph as contracts see it.
pub struct GraphView {
    pub resources: Seq<ResourceDesc>,
    pub nodes: Seq<NodeView>,
}

impl GraphView {
    /// `r` refers to an entry of the resource table, and to one of its kind.
    pub open spec fn holds(self, r: GraphResource) -> bool {
        r.index < self.resources.len() && self.resources[r.index as int].kind() == r.kind
    }

    /// Some node produces `r`.
    pub open spec fn produced(self, r: GraphResource) -> bool {
        exists|i: int| 0 <= i < self.nodes.len() && #[trigger] self.nodes[i].writes.contains(r)
    }

    /// Some node before position `j` produces `r`.
    pub open spec fn produced_before(self, j: int, r: GraphResource) -> bool {
        exists|i: int|
            0 <= i < j && i < self.nodes.len() && #[trigger] self.nodes[i].writes.contains(r)
    }

    /// Every handle that `n` names is in the resource table.
    pub open spec fn names_known(self, n: NodeView) -> bool {
        &&& forall|r: GraphResource| #[trigger] n.reads.contains(r) ==> self.holds(r)
        &&& forall|r: GraphResource| #[trigger] n.writes.contains(r) ==> self.holds(r)
    }

    /// Node `from` produces a handle that node `to` consumes.
    pub open spec fn edge(self, from: int, to: int) -> bool {
        &&& 0 <= from < self.nodes.len()
        &&& 0 <= to < self.nodes.len()
        &&& exists|r: GraphResource|
            #[trigger] self.nodes[from].writes.contains(r) && self.nodes[to].reads.contains(r)
    }

    /// The dependency edges, as pairs of node positions.
    pub open spec fn edges(self) -> Set<(int, int)> {
        Set::new(|e: (int, int)| self.edge(e.0, e.1))
    }

    /// Whoever produces a handle stands before whoever consumes it.
    pub open spec fn ordered(self) -> bool {
        forall|i: int, j: int, r: GraphResource|
            0 <= i < self.nodes.len() && 0 <= j < self.nodes.len()
                && #[trigger] self.nodes[i].writes.contains(r)
                && #[trigger] self.nodes[j].reads.contains(r) ==> i < j
    }

    /// Every handle that a node consumes was produced by a node before it.
    pub open spec fn supplied(self) -> bool {
        forall|j: int, r: GraphResource|
            0 <= j < self.nodes.len() && #[trigger] self.nodes[j].reads.contains(r)
                ==> self.produced_before(j, r)
    }

    /// No handle is produced by two nodes.
    pub open spec fn single_producer(self) -> bool {
        forall|i: int, k: int, r: GraphResource|
            0 <= i < self.nodes.len() && 0 <= k < self.nodes.len()
                && #[trigger] self.nodes[i].writes.contains(r)
                && #[trigger] self.nodes[k].writes.contains(r) ==> i == k
    }

    /// The graph's invariant: nodes name known handles only, consume only
    /// what a node before them produced, and never produce a handle again.
    pub open spec fn wf(self) -> bool {
        &&& forall|j: int| 0 <= j < self.nodes.len() ==> self.names_known(#[trigger] self.nodes[j])
        &&& self.supplied()
        &&& self.single_producer()
    }

    /// The graph with one more entry in its resource table.
    pub open spec fn with_resource(self, d: ResourceDesc) -> GraphView {
        GraphView { resources: self.resources.push(d), nodes: self.nodes }
    }

    /// The graph with one more node.
    pub open spec fn with_node(self, n: NodeView) -> GraphView {
        GraphView { resources: self.resources, nodes: self.nodes.push(n) }
    }

    /// The handle that the next registration of a `kind` resource returns.
    pub open spec fn next(self, kind: HandleKind) -> GraphResource {
        GraphResource { kind, index: self.resources.len() as usize }
    }

    /// A node may be appended when it names known handles, consumes only
    /// handles that were produced, and produces only handles that were not.
    pub open spec fn admits(self, n: NodeView) -> bool {
        &&& self.names_known(n)
        &&& forall|r: GraphResource| #[trigger] n.reads.contains(r) ==> self.produced(r)
        &&& forall|r: GraphResource| #[trigger] n.writes.contains(r) ==> !self.produced(r)
    }
}

/// Registering a resource keeps the invariant, and no node has produced the
/// new entry.
pub proof fn lemma_with_resource(g: GraphView, d: ResourceDesc)
    requires
        g.wf(),
        g.resources.len() <= usize::MAX,
    ensures
        g.with_resource(d).wf(),
        g.with_resource(d).holds(g.next(d.kind())),
        !g.with_resource(d).produced(g.next(d.kind())),
        forall|r: GraphResource| g.holds(r) ==> #[trigger] g.with_resource(d).holds(r),
        forall|r: GraphResource| g.produced(r) == #[trigger] g.with_resource(d).produced(r),
{
    let h = g.with_resource(d);
    assert forall|j: int| 0 <= j < h.nodes.len() implies h.names_known(#[trigger] h.nodes[j]) by {
        assert(g.names_known(g.nodes[j]));
    }
    assert forall|j: int, r: GraphResource|
        0 <= j < h.nodes.len() && #[trigger] h.nodes[j].reads.contains(r) implies h.produced_before(
        j,
        r,
    ) by {
        assert(g.produced_before(j, r));
    }
    if h.produced(g.next(d.kind())) {
        let i = choose|i: int|
            0 <= i < h.nodes.len() && #[trigger] h.nodes[i].writes.contains(g.next(d.kind()));
        assert(g.names_known(g.nodes[i]));
    }
}

/// Appending an admissible node keeps the invariant; what it writes is
/// produced from then on.
pub proof fn lemma_with_node(g: GraphView, n: NodeView)
    requires
        g.wf(),
        g.admits(n),
    ensures
        g.with_node(n).wf(),
        forall|r: GraphResource| g.holds(r) ==> #[trigger] g.with_node(n).holds(r),
        forall|r: GraphResource| g.produced(r) ==> #[trigger] g.with_node(n).produced(r),
        forall|r: GraphResource| #[trigger] n.writes.contains(r) ==> g.with_node(n).produced(r),
{
    let h = g.with_node(n);
    let m = g.nodes.len() as int;
    assert forall|j: int| 0 <= j < h.nodes.len() implies h.names_known(#[trigger] h.nodes[j]) by {
        if j < m {
            assert(g.names_known(g.nodes[j]));
        }
    }
    assert forall|r: GraphResource| g.produced(r) implies #[trigger] h.produced(r) by {
        let i = choose|i: int| 0 <= i < g.nodes.len() && #[trigger] g.nodes[i].writes.contains(r);
        assert(h.nodes[i].writes.contains(r));
    }
    assert forall|r: GraphResource| #[trigger] n.writes.contains(r) implies h.produced(r) by {
        assert(h.nodes[m].writes.contains(r));
    }
    assert forall|j: int, r: GraphResource|
        0 <= j < h.nodes.len() && #[trigger] h.nodes[j].reads.contains(r) implies h.produced_before(
        j,
        r,
    ) by {
        if j < m {
            assert(g.nodes[j].reads.contains(r));
            assert(g.produced_before(j, r));
            let i = choose|i: int|
                0 <= i < j && i < g.nodes.len() && #[trigger] g.nodes[i].writes.contains(r);
            assert(h.nodes[i].writes.contains(r));
        } else {
            assert(g.produced(r));
            let i = choose|i: int|
                0 <= i < g.nodes.len() && #[trigger] g.nodes[i].writes.contains(r);
            assert(h.nodes[i].writes.contains(r));
        }
    }
    assert forall|i: int, k: int, r: GraphResource|
        0 <= i < h.nodes.len() && 0 <= k < h.nodes.len() && #[trigger] h.nodes[i].writes.contains(r)
            && #[trigger] h.nodes[k].writes.contains(r) implies i == k by {
        if i < m && k < m {
            assert(g.nodes[i].writes.contains(r) && g.nodes[k].writes.contains(r));
        } else if i < m {
            assert(g.nodes[i].writes.contains(r));
            assert(g.produced(r));
        } else if k < m {
            assert(g.nodes[k].writes.contains(r));
            assert(g.produced(r));
        }
    }
}

/// In a well-formed graph whoever produces a handle stands before whoever
/// consumes it.
pub proof fn lemma_well_formed_is_ordered(g: GraphView)
    requires
        g.wf(),
    ensures
        g.ordered(),
{
    assert forall|i: int, j: int, r: GraphResource|
        0 <= i < g.nodes.len() && 0 <= j < g.nodes.len() && #[trigger] g.nodes[i].writes.contains(r)
            && #[trigger] g.nodes[j].reads.contains(r) implies i < j by {
        assert(g.produced_before(j, r));
        let k = choose|k: int|
            0 <= k < j && k < g.nodes.len() && #[trigger] g.nodes[k].writes.contains(r);
        assert(i == k);
    }
}

/// The builder that stages and routines append to.
pub struct FramePlan {
    resources: Vec<ResourceDesc>,
    nodes: Vec<Node>,
}

impl View for FramePlan {
    type V = GraphView;

    closed spec fn view(&self) -> GraphView {
        GraphView { resources: self.resources@, nodes: self.nodes@.map_values(|n: Node| n@) }
    }
}

impl FramePlan {
    /// The invariant every graph is expected to keep.
    pub open spec fn wf(&self) -> bool {
        self@.wf()
    }

    /// A graph without resources and nodes.
    pub fn new() -> (g: FramePlan)
        ensures
            g@.resources.len() == 0,
            g@.nodes.len() == 0,
            g.wf(),
    {
        FramePlan { resources: Vec::new(), nodes: Vec::new() }
    }

    fn register(&mut self, d: ResourceDesc) -> (index: usize)
        requires
            old(self).wf(),
        ensures
            final(self)@ == old(self)@.with_resource(d),
            index == old(self)@.resources.len(),
            final(self).wf(),
            final(self)@.holds(old(self)@.next(d.kind())),
            !final(self)@.produced(old(self)@.next(d.kind())),
            forall|r: GraphResource| old(self)@.holds(r) ==> #[trigger] final(self)@.holds(r),
            forall|r: GraphResource| old(self)@.produced(r) == #[trigger] final(self)@.produced(r),
    {
        let index: usize = self.resources.len();
        proof {
            lemma_with_resource(self@, d);
        }
        self.resources.push(d);
        index
    }

    /// Registers a render target and returns its handle.
    pub fn add_render_target(&mut self, desc: RenderTargetDescriptor) -> (h: TargetHandle)
        requires
            old(self).wf(),
        ensures
            final(self)@ == old(self)@.with_resource(ResourceDesc::RenderTarget(desc)),
            h.index == old(self)@.resources.len(),
            final(self).wf(),
            final(self)@.holds(h.resource()),
            !final(self)@.produced(h.resource()),
            forall|r: GraphResource| old(self)@.holds(r) ==> #[trigger] final(self)@.holds(r),
            forall|r: GraphResource| old(self)@.produced(r) == #[trigger] final(self)@.produced(r),
    {
        let index: usize = self.register(ResourceDesc::RenderTarget(desc));
        TargetHandle { index }
    }

    /// Registers a buffer and returns its handle.
    pub fn add_buffer(&mut self) -> (h: BufferHandle)
        requires
            old(self).wf(),
        ensures
            final(self)@ == old(self)@.with_resource(ResourceDesc::Buffer),
            h.index == old(self)@.resources.len(),
            final(self).wf(),
            final(self)@.holds(h.resource()),
            !final(self)@.produced(h.resource()),
            forall|r: GraphResource| old(self)@.holds(r) ==> #[trigger] final(self)@.holds(r),
            forall|r: GraphResource| old(self)@.produced(r) == #[trigger] final(self)@.produced(r),
    {
        let index: usize = self.register(ResourceDesc::Buffer);
        BufferHandle { index }
    }

    /// Registers a culled object list and returns its handle.
    pub fn add_culled_list(&mut self) -> (h: CulledObjectListHandle)
        requires
            old(self).wf(),
        ensures
            final(self)@ == old(self)@.with_resource(ResourceDesc::CulledObjectList),
            h.index == old(self)@.resources.len(),
            final(self).wf(),
            final(self)@.holds(h.resource()),
            !final(self)@.produced(h.resource()),
            forall|r: GraphResource| old(self)@.holds(r) ==> #[trigger] final(self)@.holds(r),
            forall|r: GraphResource| old(self)@.produced(r) == #[trigger] final(self)@.produced(r),
    {
        let index: usize = self.register(ResourceDesc::CulledObjectList);
        CulledObjectListHandle { index }
    }

    /// Registers per-frame uniform data and returns its handle.
    pub fn add_uniforms(&mut self, uniforms: FrameUniforms) -> (h: UniformsHandle)
        requires
            old(self).wf(),
        ensures
            final(self)@ == old(self)@.with_resource(ResourceDesc::Uniforms(uniforms)),
            h.index == old(self)@.resources.len(),
            final(self).wf(),
            final(self)@.holds(h.resource()),
            !final(self)@.produced(h.resource()),
            forall|r: GraphResource| old(self)@.holds(r) ==> #[trigger] final(self)@.holds(r),
            forall|r: GraphResource| old(self)@.produced(r) == #[trigger] final(self)@.produced(r),
    {
        let index: usize = self.register(ResourceDesc::Uniforms(uniforms));
        UniformsHandle { index }
    }

    /// Appends a node. The graph owns it from then on.
    pub fn add_node(&mut self, node: Node)
        requires
            old(self).wf(),
            old(self)@.admits(node@),
        ensures
            final(self)@ == old(self)@.with_node(node@),
            final(self).wf(),
            forall|r: GraphResource| old(self)@.holds(r) ==> #[trigger] final(self)@.holds(r),
            forall|r: GraphResource| old(self)@.produced(r) ==> #[trigger] final(self)@.produced(r),
            forall|r: GraphResource| #[trigger] node@.writes.contains(r) ==> final(self)@.produced(r),
    {
        proof {
            lemma_with_node(self@, node@);
        }
        self.nodes.push(node);
        assert(self@.nodes =~= old(self)@.nodes.push(node@));
    }

    /// Closes the graph: what comes out can be read and handed on, and
    /// nothing can be added to it.
    pub fn freeze(self) -> (frozen: FrameGraph)
        ensures
            frozen@ == self@,
    {
        FrameGraph { graph: self }
    }

    /// The number of nodes.
    pub fn node_count(&self) -> (n: usize)
        ensures
            n == self@.nodes.len(),
    {
        self.nodes.len()
    }

    /// The number of entries in the resource table.
    pub fn resource_count(&self) -> (n: usize)
        ensures
            n == self@.resources.len(),
    {
        self.resources.len()
    }

    /// The node at position `i`, or nothing past the end.
    pub fn node(&self, i: usize) -> (n: Option<&Node>)
        ensures
            i < self@.nodes.len() ==> n is Some && n->0@ == self@.nodes[i as int],
            i >= self@.nodes.len() ==> n is None,
    {
        if i < self.nodes.len() {
            Some(&self.nodes[i])
        } else {
            None
        }
    }

    /// Whether the node at `from` produces a handle that the node at `to`
    /// consumes.
    pub fn depends_on(&self, from: usize, to: usize) -> (found: bool)
        ensures
            found == self@.edge(from as int, to as int),
    {
        if from >= self.nodes.len() || to >= self.nodes.len() {
            return false;
        }
        let producer: &Node = &self.nodes[from];
        let consumer: &Node = &self.nodes[to];
        assert(self@.nodes[from as int] == producer@);
        assert(self@.nodes[to as int] == consumer@);
        let mut i: usize = 0;
        while i < producer.writes.len()
            invariant
                from < self@.nodes.len(),
                to < self@.nodes.len(),
                self@.nodes[from as int] == producer@,
                self@.nodes[to as int] == consumer@,
                i <= producer.writes@.len(),
                forall|a: int, b: int|
                    0 <= a < i && 0 <= b < consumer.reads@.len() ==> producer.writes@[a]
                        != consumer.reads@[b],
            decreases producer.writes@.len() - i,
        {
            let mut j: usize = 0;
            while j < consumer.reads.len()
                invariant
                    from < self@.nodes.len(),
                    to < self@.nodes.len(),
                    self@.nodes[from as int] == producer@,
                    self@.nodes[to as int] == consumer@,
                    i < producer.writes@.len(),
                    j <= consumer.reads@.len(),
                    forall|b: int| 0 <= b < j ==> producer.writes@[i as int] != consumer.reads@[b],
                decreases consumer.reads@.len() - j,
            {
                if producer.writes[i] == consumer.reads[j] {
                    assert(producer@.writes.contains(producer.writes@[i as int]));
                    assert(consumer@.reads.contains(consumer.reads@[j as int]));
                    return true;
                }
                j += 1;
            }
            i += 1;
        }
        false
    }

    /// What the resource table holds for `r`, or nothing if `r` is not a
    /// handle of this graph.
    pub fn resource(&self, r: GraphResource) -> (d: Option<ResourceDesc>)
        ensures
            self@.holds(r) ==> d == Some(self@.resources[r.index as int]),
            !self@.holds(r) ==> d is None,
    {
        if r.index < self.resources.len() {
            let d: ResourceDesc = self.resources[r.index];
            let same: bool = match d {
                ResourceDesc::RenderTarget(_) => r.kind == HandleKind::RenderTarget,
                ResourceDesc::Buffer => r.kind == HandleKind::Buffer,
                ResourceDesc::CulledObjectList => r.kind == HandleKind::CulledObjectList,
                ResourceDesc::Uniforms(_) => r.kind == HandleKind::Uniforms,
            };
            if same {
                Some(d)
            } else {
                None
            }
        } else {
            None
        }
    }

    /// The description of the render target behind `h`, or nothing if `h` is
    /// not a render target of this graph.
    pub fn render_target(&self, h: TargetHandle) -> (d: Option<RenderTargetDescriptor>)
        ensures
            self@.holds(h.resource()) ==> d is Some && ResourceDesc::RenderTarget(d->0)
                == self@.resources[h.index as int],
            !self@.holds(h.resource()) ==> d is None,
    {
        match self.resource(h.resource()) {
            Some(ResourceDesc::RenderTarget(desc)) => Some(desc),
            _ => None,
        }
    }
}

/// A finished graph, as it is handed to whoever executes it.
pub struct FrameGraph {
    graph: FramePlan,
}

impl View for FrameGraph {
    type V = GraphView;

    closed spec fn view(&self) -> GraphView {
        self.graph@
    }
}

impl FrameGraph {
    /// The graph, to read.
    pub fn graph(&self) -> (g: &FramePlan)
        ensures
            g@ == self@,
    {
        &self.graph
    }
}

} // verus!
