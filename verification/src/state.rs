//! The per-frame state that the fixed pipeline fills in, stage by stage.

use vstd::prelude::*;
use crate::graph::{GraphView, Node, NodeLabel, NodeView, FramePlan};
use crate::resource::{
    AmbientLight, BufferHandle, CulledObjectListHandle, FrameUniforms, GraphResource, HandleKind,
    ReadySnapshot, RenderTargetDescriptor, TargetHandle, Resolution, ResourceDesc, SampleCount,
    TargetLabel, TextureFormat, TextureUsages, UniformsHandle,
};

verus! {

/// How far the fixed pipeline has come.
#[derive(Clone, Copy, Debug, PartialEq, Eq, Structural)]
pub enum Phase {
    Created,
    PreCulled,
    UniformsCreated,
    ShadowCulled,
    Culled,
    Prepassed,
    Forwarded,
}

impl Phase {
    /// The number of stages that have run.
    pub open spec fn rank(self) -> nat {
        match self {
            Phase::Created => 0,
            Phase::PreCulled => 1,
            Phase::UniformsCreated => 2,
            Phase::ShadowCulled => 3,
            Phase::Culled => 4,
            Phase::Prepassed => 5,
            Phase::Forwarded => 6,
        }
    }
}

/// A run of culled object lists that were registered one after another.
#[derive(Clone, Copy, Debug, PartialEq, Eq, Structural)]
pub struct CulledListRange {
    pub first: usize,
    pub count: usize,
}

/// The handles produced so far, with the frame's configuration.
#[derive(Clone, Copy, Debug, PartialEq, Eq, Structural)]
pub struct IntermediateFrameState {
    pub resolution: Resolution,
    pub samples: SampleCount,
    pub shadow_lights: usize,
    pub phase: Phase,
    pub object_buffer: Option<BufferHandle>,
    pub frame_uniforms: Option<UniformsHandle>,
    pub shadow_culled: Option<CulledListRange>,
    pub culled: Option<CulledObjectListHandle>,
    pub depth: Option<TargetHandle>,
    pub color: Option<TargetHandle>,
}

/// The depth buffer that the prepass renders into.
pub open spec fn depth_descriptor(resolution: Resolution, samples: SampleCount)
    -> RenderTargetDescriptor {
    RenderTargetDescriptor {
        label: TargetLabel::Depth,
        resolution,
        samples,
        format: TextureFormat::Depth32Float,
        usage: TextureUsages { render_attachment: true, texture_binding: false },
    }
}

/// The colour target that forward rendering writes, before tonemapping.
pub open spec fn color_descriptor(resolution: Resolution, samples: SampleCount)
    -> RenderTargetDescriptor {
    RenderTargetDescriptor {
        label: TargetLabel::Color,
        resolution,
        samples,
        format: TextureFormat::Rgba16Float,
        usage: TextureUsages { render_attachment: true, texture_binding: true },
    }
}

/// The handles of `count` culled lists registered from position `first` on.
pub open spec fn list_run(first: usize, count: usize) -> Seq<GraphResource> {
    Seq::new(
        count as nat,
        |i: int| GraphResource { kind: HandleKind::CulledObjectList, index: (first + i) as usize },
    )
}

/// The node of stage one: it reads nothing and fills the object buffer.
pub open spec fn pre_culling_node(buffer: BufferHandle) -> NodeView {
    NodeView { label: NodeLabel::PreCulling, reads: seq![], writes: seq![buffer.resource()] }
}

/// The node of stage two: it reads nothing and fills the frame uniforms.
pub open spec fn uniforms_node(uniforms: UniformsHandle) -> NodeView {
    NodeView { label: NodeLabel::FrameUniforms, reads: seq![], writes: seq![uniforms.resource()] }
}

/// The node of stage three: it reads the object buffer and fills one
/// culled list per shadow-casting light.
pub open spec fn shadow_culling_node(buffer: BufferHandle, lists: CulledListRange) -> NodeView {
    NodeView {
        label: NodeLabel::ShadowCulling,
        reads: seq![buffer.resource()],
        writes: list_run(lists.first, lists.count),
    }
}

/// The node of stage four: it reads the object buffer and fills the list
/// of visible objects.
pub open spec fn culling_node(buffer: BufferHandle, culled: CulledObjectListHandle) -> NodeView {
    NodeView {
        label: NodeLabel::Culling,
        reads: seq![buffer.resource()],
        writes: seq![culled.resource()],
    }
}

/// The node of stage five: it reads the visible objects and fills the
/// depth buffer.
pub open spec fn prepass_node(culled: CulledObjectListHandle, depth: TargetHandle)
    -> NodeView {
    NodeView {
        label: NodeLabel::Prepass,
        reads: seq![culled.resource()],
        writes: seq![depth.resource()],
    }
}

/// The node of stage six: it reads the visible objects, the frame
/// uniforms and the depth buffer, and fills the colour target.
pub open spec fn forward_node(
    culled: CulledObjectListHandle,
    uniforms: UniformsHandle,
    depth: TargetHandle,
    color: TargetHandle,
) -> NodeView {
    NodeView {
        label: NodeLabel::Forward,
        reads: seq![culled.resource(), uniforms.resource(), depth.resource()],
        writes: seq![color.resource()],
    }
}

/// The closing node: it reads the colour target and fills the output.
pub open spec fn tonemap_node(color: TargetHandle, target: TargetHandle) -> NodeView {
    NodeView {
        label: NodeLabel::Tonemap,
        reads: seq![color.resource()],
        writes: seq![target.resource()],
    }
}

impl IntermediateFrameState {
    /// The handle that the next registration in `g` returns, as an index.
    pub open spec fn next_index(g: GraphView) -> usize {
        g.resources.len() as usize
    }

    /// Every handle that the stages run so far have recorded is set, known
    /// to `g` and produced by a node of `g`.
    pub open spec fn consistent(self, g: GraphView) -> bool {
        &&& self.resolution.is_valid()
        &&& self.phase.rank() >= 1 ==> self.object_buffer is Some && Self::available(
            g,
            self.object_buffer->0.resource(),
        )
        &&& self.phase.rank() >= 2 ==> self.frame_uniforms is Some && Self::available(
            g,
            self.frame_uniforms->0.resource(),
        )
        &&& self.phase.rank() >= 3 ==> self.shadow_culled is Some
        &&& self.phase.rank() >= 4 ==> self.culled is Some && Self::available(
            g,
            self.culled->0.resource(),
        )
        &&& self.phase.rank() >= 5 ==> self.depth is Some && Self::available(
            g,
            self.depth->0.resource(),
        )
        &&& self.phase.rank() >= 6 ==> self.color is Some && Self::available(
            g,
            self.color->0.resource(),
        )
    }

    /// `r` is a handle of `g` that a node of `g` has produced.
    pub open spec fn available(g: GraphView, r: GraphResource) -> bool {
        g.holds(r) && g.produced(r)
    }

    /// The state a frame starts with.
    pub open spec fn initial(ready: ReadySnapshot, resolution: Resolution, samples: SampleCount)
        -> IntermediateFrameState {
        IntermediateFrameState {
            resolution,
            samples,
            shadow_lights: ready.directional_lights,
            phase: Phase::Created,
            object_buffer: None,
            frame_uniforms: None,
            shadow_culled: None,
            culled: None,
            depth: None,
            color: None,
        }
    }

    /// A state for one frame, with no handle set yet. Nothing is registered
    /// anywhere.
    pub fn new(ready: &ReadySnapshot, resolution: Resolution, samples: SampleCount) -> (s:
        IntermediateFrameState)
        requires
            resolution.is_valid(),
        ensures
            s == Self::initial(*ready, resolution, samples),
            forall|g: GraphView| s.consistent(g),
    {
        IntermediateFrameState {
            resolution,
            samples,
            shadow_lights: ready.directional_lights,
            phase: Phase::Created,
            object_buffer: None,
            frame_uniforms: None,
            shadow_culled: None,
            culled: None,
            depth: None,
            color: None,
        }
    }

    /// The graph after stage one: one more buffer, one more node.
    pub open spec fn pre_culling_graph(g: GraphView) -> GraphView {
        g.with_resource(ResourceDesc::Buffer).with_node(
            pre_culling_node(BufferHandle { index: Self::next_index(g) }),
        )
    }

    /// The state after stage one, run on `g`.
    pub open spec fn after_pre_culling(self, g: GraphView) -> IntermediateFrameState {
        IntermediateFrameState {
            phase: Phase::PreCulled,
            object_buffer: Some(BufferHandle { index: Self::next_index(g) }),
            ..self
        }
    }

    /// Stage one: the node that gathers the scene's objects into a buffer
    /// for the culling stages.
    pub fn pre_culling(&mut self, graph: &mut FramePlan)
        requires
            old(graph).wf(),
            old(self).phase == Phase::Created,
            old(self).consistent(old(graph)@),
        ensures
            final(graph)@ == Self::pre_culling_graph(old(graph)@),
            *final(self) == old(self).after_pre_culling(old(graph)@),
            final(graph).wf(),
            final(self).consistent(final(graph)@),
    {
        let buffer: BufferHandle = graph.add_buffer();
        let mut writes: Vec<GraphResource> = Vec::new();
        writes.push(buffer.resource());
        let node = Node { label: NodeLabel::PreCulling, reads: Vec::new(), writes };
        assert(node@ == pre_culling_node(buffer));
        assert(node@.writes[0] == buffer.resource());
        assert(node@.writes.contains(buffer.resource()));
        graph.add_node(node);
        self.object_buffer = Some(buffer);
        self.phase = Phase::PreCulled;
    }

    /// The graph after stage two: one more uniforms entry, one more node.
    pub open spec fn frame_uniforms_graph(
        g: GraphView,
        ambient: AmbientLight,
        resolution: Resolution,
    ) -> GraphView {
        g.with_resource(ResourceDesc::Uniforms(FrameUniforms { ambient, resolution })).with_node(
            uniforms_node(UniformsHandle { index: Self::next_index(g) }),
        )
    }

    /// The state after stage two, run on `g`.
    pub open spec fn after_frame_uniforms(self, g: GraphView) -> IntermediateFrameState {
        IntermediateFrameState {
            phase: Phase::UniformsCreated,
            frame_uniforms: Some(UniformsHandle { index: Self::next_index(g) }),
            ..self
        }
    }

    /// Stage two: the node that uploads the per-frame uniforms, built from
    /// the ambient light and the resolution.
    pub fn create_frame_uniforms(
        &mut self,
        graph: &mut FramePlan,
        ambient: AmbientLight,
        resolution: Resolution,
    )
        requires
            old(graph).wf(),
            old(self).phase == Phase::PreCulled,
            old(self).consistent(old(graph)@),
        ensures
            final(graph)@ == Self::frame_uniforms_graph(old(graph)@, ambient, resolution),
            *final(self) == old(self).after_frame_uniforms(old(graph)@),
            final(graph).wf(),
            final(self).consistent(final(graph)@),
    {
        let uniforms: UniformsHandle = graph.add_uniforms(FrameUniforms { ambient, resolution });
        let mut writes: Vec<GraphResource> = Vec::new();
        writes.push(uniforms.resource());
        let node = Node { label: NodeLabel::FrameUniforms, reads: Vec::new(), writes };
        assert(node@ == uniforms_node(uniforms));
        assert(node@.writes[0] == uniforms.resource());
        assert(node@.writes.contains(uniforms.resource()));
        graph.add_node(node);
        self.frame_uniforms = Some(uniforms);
        self.phase = Phase::UniformsCreated;
    }

    /// The graph after stage three: one more culled list per shadow-casting
    /// light, and one more node.
    pub open spec fn shadow_culling_graph(self, g: GraphView) -> GraphView {
        GraphView {
            resources: g.resources + Seq::new(
                self.shadow_lights as nat,
                |i: int| ResourceDesc::CulledObjectList,
            ),
            nodes: g.nodes.push(
                shadow_culling_node(
                    self.object_buffer->0,
                    CulledListRange { first: Self::next_index(g), count: self.shadow_lights },
                ),
            ),
        }
    }

    /// The state after stage three, run on `g`.
    pub open spec fn after_shadow_culling(self, g: GraphView) -> IntermediateFrameState {
        IntermediateFrameState {
            phase: Phase::ShadowCulled,
            shadow_culled: Some(
                CulledListRange { first: Self::next_index(g), count: self.shadow_lights },
            ),
            ..self
        }
    }

    /// Stage three: the node that culls the scene's objects once for every
    /// shadow-casting light, into one new list per light.
    pub fn shadow_culling(&mut self, graph: &mut FramePlan)
        requires
            old(graph).wf(),
            old(self).phase == Phase::UniformsCreated,
            old(self).consistent(old(graph)@),
        ensures
            final(graph)@ == old(self).shadow_culling_graph(old(graph)@),
            *final(self) == old(self).after_shadow_culling(old(graph)@),
            final(graph).wf(),
            final(self).consistent(final(graph)@),
    {
        let buffer: BufferHandle = self.object_buffer.unwrap();
        let uniforms: UniformsHandle = self.frame_uniforms.unwrap();
        let first: usize = graph.resource_count();
        let count: usize = self.shadow_lights;
        let mut writes: Vec<GraphResource> = Vec::new();
        let mut k: usize = 0;
        while k < count
            invariant
                k <= count,
                graph.wf(),
                first == old(graph)@.resources.len(),
                graph@.nodes == old(graph)@.nodes,
                graph@.resources =~= old(graph)@.resources + Seq::new(
                    k as nat,
                    |i: int| ResourceDesc::CulledObjectList,
                ),
                writes@ =~= list_run(first, k),
                graph@.holds(buffer.resource()),
                graph@.holds(uniforms.resource()),
                forall|i: int|
                    0 <= i < writes@.len() ==> graph@.holds(#[trigger] writes@[i])
                        && !graph@.produced(writes@[i]),
            decreases count - k,
        {
            let list: CulledObjectListHandle = graph.add_culled_list();
            writes.push(list.resource());
            k += 1;
        }
        let mut reads: Vec<GraphResource> = Vec::new();
        reads.push(buffer.resource());
        let node = Node { label: NodeLabel::ShadowCulling, reads, writes };
        assert(node@ == shadow_culling_node(buffer, CulledListRange { first, count }));
        graph.add_node(node);
        self.shadow_culled = Some(CulledListRange { first, count });
        self.phase = Phase::ShadowCulled;
    }

    /// The graph after stage four: one more culled list, one more node.
    pub open spec fn culling_graph(self, g: GraphView) -> GraphView {
        g.with_resource(ResourceDesc::CulledObjectList).with_node(
            culling_node(
                self.object_buffer->0,
                CulledObjectListHandle { index: Self::next_index(g) },
            ),
        )
    }

    /// The state after stage four, run on `g`.
    pub open spec fn after_culling(self, g: GraphView) -> IntermediateFrameState {
        IntermediateFrameState {
            phase: Phase::Culled,
            culled: Some(CulledObjectListHandle { index: Self::next_index(g) }),
            ..self
        }
    }

    /// Stage four: the node that culls the scene's objects against the main
    /// camera and produces the list of visible objects.
    pub fn culling(&mut self, graph: &mut FramePlan)
        requires
            old(graph).wf(),
            old(self).phase == Phase::ShadowCulled,
            old(self).consistent(old(graph)@),
        ensures
            final(graph)@ == old(self).culling_graph(old(graph)@),
            *final(self) == old(self).after_culling(old(graph)@),
            final(graph).wf(),
            final(self).consistent(final(graph)@),
    {
        let buffer: BufferHandle = self.object_buffer.unwrap();
        let culled: CulledObjectListHandle = graph.add_culled_list();
        let mut reads: Vec<GraphResource> = Vec::new();
        reads.push(buffer.resource());
        let mut writes: Vec<GraphResource> = Vec::new();
        writes.push(culled.resource());
        let node = Node { label: NodeLabel::Culling, reads, writes };
        assert(node@ == culling_node(buffer, culled));
        assert(node@.writes[0] == culled.resource());
        assert(node@.writes.contains(culled.resource()));
        graph.add_node(node);
        self.culled = Some(culled);
        self.phase = Phase::Culled;
    }

    /// The graph after stage five: the depth buffer and one more node.
    pub open spec fn prepass_graph(self, g: GraphView, samples: SampleCount) -> GraphView {
        g.with_resource(
            ResourceDesc::RenderTarget(depth_descriptor(self.resolution, samples)),
        ).with_node(
            prepass_node(self.culled->0, TargetHandle { index: Self::next_index(g) }),
        )
    }

    /// The state after stage five, run on `g`.
    pub open spec fn after_prepass(self, g: GraphView) -> IntermediateFrameState {
        IntermediateFrameState {
            phase: Phase::Prepassed,
            depth: Some(TargetHandle { index: Self::next_index(g) }),
            ..self
        }
    }

    /// Stage five: the depth-only pass over the visible objects, into a new
    /// depth buffer with `samples` samples.
    pub fn prepass_rendering(&mut self, graph: &mut FramePlan, samples: SampleCount)
        requires
            old(graph).wf(),
            old(self).phase == Phase::Culled,
            old(self).consistent(old(graph)@),
        ensures
            final(graph)@ == old(self).prepass_graph(old(graph)@, samples),
            *final(self) == old(self).after_prepass(old(graph)@),
            final(graph).wf(),
            final(self).consistent(final(graph)@),
    {
        let culled: CulledObjectListHandle = self.culled.unwrap();
        let depth: TargetHandle = graph.add_render_target(
            RenderTargetDescriptor {
                label: TargetLabel::Depth,
                resolution: self.resolution,
                samples,
                format: TextureFormat::Depth32Float,
                usage: TextureUsages { render_attachment: true, texture_binding: false },
            },
        );
        let mut reads: Vec<GraphResource> = Vec::new();
        reads.push(culled.resource());
        let mut writes: Vec<GraphResource> = Vec::new();
        writes.push(depth.resource());
        let node = Node { label: NodeLabel::Prepass, reads, writes };
        assert(node@ == prepass_node(culled, depth));
        assert(node@.writes[0] == depth.resource());
        assert(node@.writes.contains(depth.resource()));
        graph.add_node(node);
        self.depth = Some(depth);
        self.phase = Phase::Prepassed;
    }

    /// The graph after stage six: the colour target and one more node.
    pub open spec fn forward_graph(self, g: GraphView, samples: SampleCount) -> GraphView {
        g.with_resource(
            ResourceDesc::RenderTarget(color_descriptor(self.resolution, samples)),
        ).with_node(
            forward_node(
                self.culled->0,
                self.frame_uniforms->0,
                self.depth->0,
                TargetHandle { index: Self::next_index(g) },
            ),
        )
    }

    /// The state after stage six, run on `g`.
    pub open spec fn after_forward(self, g: GraphView) -> IntermediateFrameState {
        IntermediateFrameState {
            phase: Phase::Forwarded,
            color: Some(TargetHandle { index: Self::next_index(g) }),
            ..self
        }
    }

    /// Stage six: the shading pass over the visible objects, against the
    /// depth buffer, into a new colour target with `samples` samples.
    pub fn forward_rendering(&mut self, graph: &mut FramePlan, samples: SampleCount)
        requires
            old(graph).wf(),
            old(self).phase == Phase::Prepassed,
            old(self).consistent(old(graph)@),
        ensures
            final(graph)@ == old(self).forward_graph(old(graph)@, samples),
            *final(self) == old(self).after_forward(old(graph)@),
            final(graph).wf(),
            final(self).consistent(final(graph)@),
    {
        let culled: CulledObjectListHandle = self.culled.unwrap();
        let uniforms: UniformsHandle = self.frame_uniforms.unwrap();
        let depth: TargetHandle = self.depth.unwrap();
        let color: TargetHandle = graph.add_render_target(
            RenderTargetDescriptor {
                label: TargetLabel::Color,
                resolution: self.resolution,
                samples,
                format: TextureFormat::Rgba16Float,
                usage: TextureUsages { render_attachment: true, texture_binding: true },
            },
        );
        let mut reads: Vec<GraphResource> = Vec::new();
        reads.push(culled.resource());
        reads.push(uniforms.resource());
        reads.push(depth.resource());
        let mut writes: Vec<GraphResource> = Vec::new();
        writes.push(color.resource());
        let node = Node { label: NodeLabel::Forward, reads, writes };
        assert(node@.reads =~= forward_node(culled, uniforms, depth, color).reads);
        assert(node@ == forward_node(culled, uniforms, depth, color));
        assert(node@.writes[0] == color.resource());
        assert(node@.writes.contains(color.resource()));
        graph.add_node(node);
        self.color = Some(color);
        self.phase = Phase::Forwarded;
    }

    /// The graph after the closing node was added.
    pub open spec fn tonemapping_graph(self, g: GraphView, target: TargetHandle)
        -> GraphView {
        g.with_node(tonemap_node(self.color->0, target))
    }

    /// The closing node: it resolves the colour target into `target`.
    pub fn tonemapping(&self, graph: &mut FramePlan, target: TargetHandle)
        requires
            old(graph).wf(),
            self.phase == Phase::Forwarded,
            self.consistent(old(graph)@),
            old(graph)@.admits(tonemap_node(self.color->0, target)),
        ensures
            final(graph)@ == self.tonemapping_graph(old(graph)@, target),
            final(graph).wf(),
            self.consistent(final(graph)@),
    {
        let color: TargetHandle = self.color.unwrap();
        let mut reads: Vec<GraphResource> = Vec::new();
        reads.push(color.resource());
        let mut writes: Vec<GraphResource> = Vec::new();
        writes.push(target.resource());
        let node = Node { label: NodeLabel::Tonemap, reads, writes };
        assert(node@ == tonemap_node(color, target));
        graph.add_node(node);
    }
}

} // verus!
