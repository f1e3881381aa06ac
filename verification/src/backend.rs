//! The viewport's frame on rend3's render graph.

use vstd::prelude::*;
use crate::compose::{output_descriptor, ComposeError};
use crate::resource::{
    ConfigError, RenderTargetDescriptor, Resolution, SampleCount, TargetLabel, TextureFormat,
    TextureUsages,
};
use crate::state::{color_descriptor, depth_descriptor};
use rend3::graph::RenderTargetDescriptor as BackendTarget;
use rend3::types::glam::UVec2;
use rend3::types::SampleCount as BackendSamples;
use rend3::types::TextureFormat as BackendFormat;
use rend3::types::TextureUsages as BackendUsages;

verus! {

/// rend3's render graph, opaque here: contracts speak of it through the
/// names below.
#[verifier::external_type_specification]
#[verifier::external_body]
pub struct ExGraph<'node>(rend3::graph::RenderGraph<'node>);

/// rend3's handle of a render target, opaque here.
#[verifier::external_type_specification]
#[verifier::external_body]
pub struct ExTarget(rend3::graph::RenderTargetHandle);

/// rend3's snapshot of the scene, carried through.
#[verifier::external_type_specification]
#[verifier::external_body]
pub struct ExReady(rend3::graph::ReadyData);

/// rend3-routine's base pipeline, carried through.
#[verifier::external_type_specification]
#[verifier::external_body]
pub struct ExBase(rend3_routine::base::BaseRenderGraph);

/// rend3-routine's per-frame state, carried through.
#[verifier::external_type_specification]
#[verifier::external_body]
pub struct ExState(rend3_routine::base::BaseRenderGraphIntermediateState);

/// rend3-routine's shading routine, carried through.
#[verifier::external_type_specification]
#[verifier::external_body]
pub struct ExPbr(rend3_routine::pbr::PbrRoutine);

/// rend3-routine's tonemapping routine, carried through.
#[verifier::external_type_specification]
#[verifier::external_body]
pub struct ExTonemapping(rend3_routine::tonemapping::TonemappingRoutine);

/// glam's vector of four floats, carried through.
#[verifier::external_type_specification]
#[verifier::external_body]
pub struct ExVec4(rend3::types::glam::Vec4);

/// A resource of rend3's graph, as its nodes list it.
pub enum Slot {
    OutputTexture,
    Texture(nat),
    Shadow(nat),
    Data(nat),
}

/// A node of rend3's graph: the resources it declared as inputs and as
/// outputs. A resource declared as output is an input too.
pub struct RecordedNode {
    pub inputs: Set<Slot>,
    pub outputs: Set<Slot>,
}

/// Where a per-frame state keeps its handles: the number of data slots and
/// targets that the graph held when the state was made, the number of shadow
/// cameras, and whether the frame has a resolve target.
pub struct StateLayout {
    pub data_base: nat,
    pub target_base: nat,
    pub shadows: nat,
    pub resolve: bool,
}

/// The render targets that a graph has registered, oldest first.
pub uninterp spec fn graph_targets(g: rend3::graph::RenderGraph<'_>) -> Seq<RenderTargetDescriptor>;

/// The nodes that a graph holds, oldest first.
pub uninterp spec fn graph_nodes(g: rend3::graph::RenderGraph<'_>) -> Seq<RecordedNode>;

/// The number of data slots that a graph has registered.
pub uninterp spec fn graph_data_count(g: rend3::graph::RenderGraph<'_>) -> nat;

/// The shadow maps that nodes of a graph have declared as outputs.
pub uninterp spec fn graph_shadows(g: rend3::graph::RenderGraph<'_>) -> Set<nat>;

/// The resource that a handle of a render target stands for.
pub uninterp spec fn target_slot(h: rend3::graph::RenderTargetHandle) -> Slot;

/// Where a state keeps its handles.
pub uninterp spec fn state_layout(
    s: rend3_routine::base::BaseRenderGraphIntermediateState,
) -> StateLayout;

/// The state is as its constructor made it, and the graph holds every data
/// slot and target that the constructor registered for it.
pub uninterp spec fn state_made_on(
    g: rend3::graph::RenderGraph<'_>,
    s: rend3_routine::base::BaseRenderGraphIntermediateState,
) -> bool;

/// The number of shadow-casting cameras in a snapshot of the scene.
pub uninterp spec fn shadow_cameras(ready: rend3::graph::ReadyData) -> nat;

/// Whether the base pipeline culls on the GPU.
pub uninterp spec fn gpu_driven(base: rend3_routine::base::BaseRenderGraph) -> bool;

/// The resolve target that a multisampled frame renders down into.
pub open spec fn resolve_descriptor(resolution: Resolution) -> RenderTargetDescriptor {
    RenderTargetDescriptor {
        label: TargetLabel::Resolve,
        resolution,
        samples: SampleCount::One,
        format: TextureFormat::Rgba16Float,
        usage: TextureUsages { render_attachment: true, texture_binding: true },
    }
}

/// The targets that a new state registers: colour, the resolve target where
/// the frame is multisampled, and depth.
pub open spec fn state_targets(resolution: Resolution, samples: SampleCount) -> Seq<
    RenderTargetDescriptor,
> {
    if samples == SampleCount::One {
        seq![color_descriptor(resolution, samples), depth_descriptor(resolution, samples)]
    } else {
        seq![
            color_descriptor(resolution, samples),
            resolve_descriptor(resolution),
            depth_descriptor(resolution, samples),
        ]
    }
}

impl StateLayout {
    /// The data slots of one transparency kind: the objects before culling,
    /// one culled list per shadow camera, the list culled for the viewer.
    pub open spec fn block(self) -> nat {
        self.shadows + 2
    }

    /// The first data slot of transparency kind `kind` (0, 1 or 2).
    pub open spec fn kind_base(self, kind: nat) -> nat {
        if kind == 0 {
            self.data_base
        } else if kind == 1 {
            self.data_base + self.block()
        } else {
            self.data_base + self.block() + self.block()
        }
    }

    pub open spec fn pre_cull(self, kind: nat) -> Slot {
        Slot::Data(self.kind_base(kind))
    }

    pub open spec fn shadow_cull(self, kind: nat, camera: nat) -> Slot {
        Slot::Data(self.kind_base(kind) + 1 + camera)
    }

    pub open spec fn cull(self, kind: nat) -> Slot {
        Slot::Data(self.kind_base(kind) + 1 + self.shadows)
    }

    pub open spec fn shadow_uniforms(self) -> Slot {
        Slot::Data(self.data_base + 3 * self.block())
    }

    pub open spec fn forward_uniforms(self) -> Slot {
        Slot::Data(self.data_base + 3 * self.block() + 1)
    }

    pub open spec fn skinned(self) -> Slot {
        Slot::Data(self.data_base + 3 * self.block() + 3)
    }

    /// The number of data slots that the state's constructor registers.
    pub open spec fn data_slots(self) -> nat {
        3 * self.block() + 4
    }

    pub open spec fn color(self) -> Slot {
        Slot::Texture(self.target_base)
    }

    pub open spec fn resolved(self) -> Slot {
        Slot::Texture(self.target_base + 1)
    }

    pub open spec fn depth(self) -> Slot {
        Slot::Texture(
            if self.resolve {
                self.target_base + 2
            } else {
                self.target_base + 1
            },
        )
    }

    /// The targets that the rendering stages draw into.
    pub open spec fn drawn(self) -> Set<Slot> {
        if self.resolve {
            set![self.color(), self.resolved(), self.depth()]
        } else {
            set![self.color(), self.depth()]
        }
    }

    /// What the tonemap reads: the resolve target, or colour without one.
    pub open spec fn presented(self) -> Slot {
        if self.resolve {
            self.resolved()
        } else {
            self.color()
        }
    }
}

/// The node that uploads the objects of one transparency kind.
pub open spec fn pre_cull_node(l: StateLayout, kind: nat) -> RecordedNode {
    RecordedNode { inputs: set![l.pre_cull(kind)], outputs: set![l.pre_cull(kind)] }
}

/// The node that builds the uniform data.
pub open spec fn uniform_node(l: StateLayout) -> RecordedNode {
    RecordedNode {
        inputs: set![l.shadow_uniforms(), l.forward_uniforms()],
        outputs: set![l.shadow_uniforms(), l.forward_uniforms()],
    }
}

/// A culling node: it fills `into`, connects the skinned data, and reads the
/// uploaded objects where culling runs on the GPU.
pub open spec fn cull_node(l: StateLayout, from: Slot, into: Slot, gpu: bool) -> RecordedNode {
    RecordedNode {
        inputs: if gpu {
            set![from, into, l.skinned()]
        } else {
            set![into, l.skinned()]
        },
        outputs: set![into],
    }
}

/// The depth prepass of one transparency kind.
pub open spec fn depth_node(l: StateLayout, kind: nat) -> RecordedNode {
    RecordedNode {
        inputs: l.drawn().insert(l.forward_uniforms()).insert(l.cull(kind)),
        outputs: l.drawn(),
    }
}

/// The forward pass of one transparency kind; it also reads every shadow
/// map that the graph knew of.
pub open spec fn shading_node(l: StateLayout, kind: nat, shadows: Set<nat>) -> RecordedNode {
    RecordedNode {
        inputs: l.drawn().insert(l.forward_uniforms()).insert(l.cull(kind)).union(
            Set::new(|s: Slot| s is Shadow && shadows.contains(s->Shadow_0)),
        ),
        outputs: l.drawn(),
    }
}

/// The tonemap into `target`.
pub open spec fn present_node(l: StateLayout, target: Slot) -> RecordedNode {
    RecordedNode {
        inputs: set![l.presented(), target, l.forward_uniforms()],
        outputs: set![target],
    }
}

pub open spec fn pre_culling_nodes(l: StateLayout) -> Seq<RecordedNode> {
    seq![pre_cull_node(l, 0), pre_cull_node(l, 1), pre_cull_node(l, 2)]
}

pub open spec fn uniform_nodes(l: StateLayout) -> Seq<RecordedNode> {
    seq![uniform_node(l)]
}

/// One node per shadow camera, for the opaque and then the cutout kind.
pub open spec fn shadow_culling_nodes(l: StateLayout, gpu: bool) -> Seq<RecordedNode> {
    Seq::new(l.shadows, |i: int| cull_node(l, l.pre_cull(0), l.shadow_cull(0, i as nat), gpu))
        + Seq::new(
        l.shadows,
        |i: int| cull_node(l, l.pre_cull(1), l.shadow_cull(1, i as nat), gpu),
    )
}

pub open spec fn culling_nodes(l: StateLayout, gpu: bool) -> Seq<RecordedNode> {
    seq![
        cull_node(l, l.pre_cull(0), l.cull(0), gpu),
        cull_node(l, l.pre_cull(1), l.cull(1), gpu),
        cull_node(l, l.pre_cull(2), l.cull(2), gpu),
    ]
}

pub open spec fn prepass_nodes(l: StateLayout) -> Seq<RecordedNode> {
    seq![depth_node(l, 0), depth_node(l, 1)]
}

pub open spec fn forward_nodes(l: StateLayout, shadows: Set<nat>) -> Seq<RecordedNode> {
    seq![shading_node(l, 0, shadows), shading_node(l, 1, shadows), shading_node(l, 2, shadows)]
}

/// The six fixed stages, each with the nodes that stand for it.
pub open spec fn fixed_stage_groups(l: StateLayout, gpu: bool, shadows: Set<nat>) -> Seq<
    Seq<RecordedNode>,
> {
    seq![
        pre_culling_nodes(l),
        uniform_nodes(l),
        shadow_culling_nodes(l, gpu),
        culling_nodes(l, gpu),
        prepass_nodes(l),
        forward_nodes(l, shadows),
    ]
}

/// The nodes of the six fixed stages, in the order of the stages.
pub open spec fn fixed_stage_nodes(l: StateLayout, gpu: bool, shadows: Set<nat>) -> Seq<
    RecordedNode,
> {
    let g = fixed_stage_groups(l, gpu, shadows);
    g[0] + g[1] + g[2] + g[3] + g[4] + g[5]
}

/// `after` is `before` with the nodes `added` behind its own, and nothing
/// else changed.
pub open spec fn only_nodes_added(
    before: rend3::graph::RenderGraph<'_>,
    after: rend3::graph::RenderGraph<'_>,
    added: Seq<RecordedNode>,
) -> bool {
    &&& graph_nodes(after) == graph_nodes(before) + added
    &&& graph_targets(after) == graph_targets(before)
    &&& graph_data_count(after) == graph_data_count(before)
    &&& graph_shadows(after) == graph_shadows(before)
}

/// A renderer that draws over the finished frame. What it records is a
/// function of the nodes before it and of the frame's state; it registers
/// no target, no data slot and no shadow map.
pub trait OverlayRoutine {
    /// Whether the routine can record its passes at all.
    spec fn attachable(&self) -> bool;

    /// The nodes that the routine records.
    spec fn appended(&self, before: Seq<RecordedNode>, layout: StateLayout) -> Seq<RecordedNode>;

    /// Whether the routine can record its passes at all.
    fn can_attach(&self) -> (ok: bool)
        ensures
            ok == self.attachable(),
    ;

    /// Records the routine's passes.
    fn add_to_graph<'node>(
        &'node self,
        graph: &mut rend3::graph::RenderGraph<'node>,
        state: &rend3_routine::base::BaseRenderGraphIntermediateState,
    )
        requires
            self.attachable(),
            state_made_on(*old(graph), *state),
        ensures
            only_nodes_added(
                *old(graph),
                *final(graph),
                self.appended(graph_nodes(*old(graph)), state_layout(*state)),
            ),
            state_made_on(*final(graph), *state),
    ;
}

/// The routine that draws nothing; it stands where a viewport has no
/// overlay.
pub struct NoOverlay;

impl OverlayRoutine for NoOverlay {
    open spec fn attachable(&self) -> bool {
        true
    }

    open spec fn appended(&self, before: Seq<RecordedNode>, layout: StateLayout) -> Seq<
        RecordedNode,
    > {
        Seq::empty()
    }

    fn can_attach(&self) -> (ok: bool) {
        true
    }

    fn add_to_graph<'node>(
        &'node self,
        graph: &mut rend3::graph::RenderGraph<'node>,
        state: &rend3_routine::base::BaseRenderGraphIntermediateState,
    ) {
        assert(graph_nodes(*graph) + Seq::<RecordedNode>::empty() =~= graph_nodes(*graph));
    }
}

/// Not proved: calls `BaseRenderGraphIntermediateState::new`. It registers,
/// for each of the three transparency kinds, a slot for the objects, one per
/// shadow camera and one for the viewer; then two uniform slots; then the
/// colour target, the resolve target where the sample count is not one, and
/// the depth target; then two skinning slots. It adds no node.
#[verifier::external_body]
fn new_state(
    graph: &mut rend3::graph::RenderGraph<'_>,
    ready: &rend3::graph::ReadyData,
    resolution: Resolution,
    samples: SampleCount,
) -> (state: rend3_routine::base::BaseRenderGraphIntermediateState)
    ensures
        graph_targets(*final(graph)) == graph_targets(*old(graph)) + state_targets(
            resolution,
            samples,
        ),
        graph_nodes(*final(graph)) == graph_nodes(*old(graph)),
        graph_shadows(*final(graph)) == graph_shadows(*old(graph)),
        state_layout(state) == (StateLayout {
            data_base: graph_data_count(*old(graph)),
            target_base: graph_targets(*old(graph)).len(),
            shadows: shadow_cameras(*ready),
            resolve: samples != SampleCount::One,
        }),
        graph_data_count(*final(graph)) == graph_data_count(*old(graph)) + state_layout(
            state,
        ).data_slots(),
        state_made_on(*final(graph), state),
{
    let size = UVec2::new(resolution.width, resolution.height);
    let count = match samples {
        SampleCount::One => BackendSamples::One,
        SampleCount::Four => BackendSamples::Four,
    };
    rend3_routine::base::BaseRenderGraphIntermediateState::new(graph, ready, size, count)
}

/// Not proved: calls `pbr_pre_culling`, which adds one node for each of the
/// three transparency kinds; each has the kind's object slot as output.
#[verifier::external_body]
fn stage_pre_culling(
    state: &rend3_routine::base::BaseRenderGraphIntermediateState,
    graph: &mut rend3::graph::RenderGraph<'_>,
)
    requires
        state_made_on(*old(graph), *state),
    ensures
        only_nodes_added(*old(graph), *final(graph), pre_culling_nodes(state_layout(*state))),
        state_made_on(*final(graph), *state),
{
    state.pbr_pre_culling(graph)
}

/// Not proved: calls `create_frame_uniforms`, which adds one node with the
/// two uniform slots as outputs.
#[verifier::external_body]
fn stage_frame_uniforms<'node>(
    state: &rend3_routine::base::BaseRenderGraphIntermediateState,
    graph: &mut rend3::graph::RenderGraph<'node>,
    base: &'node rend3_routine::base::BaseRenderGraph,
    ambient: rend3::types::glam::Vec4,
)
    requires
        state_made_on(*old(graph), *state),
    ensures
        only_nodes_added(*old(graph), *final(graph), uniform_nodes(state_layout(*state))),
        state_made_on(*final(graph), *state),
{
    state.create_frame_uniforms(graph, base, ambient)
}

/// Not proved: calls `pbr_shadow_culling`, which adds a culling node for each
/// shadow camera of the opaque kind and then of the cutout kind.
#[verifier::external_body]
fn stage_shadow_culling<'node>(
    state: &rend3_routine::base::BaseRenderGraphIntermediateState,
    graph: &mut rend3::graph::RenderGraph<'node>,
    base: &'node rend3_routine::base::BaseRenderGraph,
    pbr: &'node rend3_routine::pbr::PbrRoutine,
)
    requires
        state_made_on(*old(graph), *state),
    ensures
        only_nodes_added(
            *old(graph),
            *final(graph),
            shadow_culling_nodes(state_layout(*state), gpu_driven(*base)),
        ),
        state_made_on(*final(graph), *state),
{
    state.pbr_shadow_culling(graph, base, pbr)
}

/// Not proved: calls `pbr_culling`, which adds one culling node for each of
/// the three transparency kinds. A culling node reads the objects only where
/// the base pipeline culls on the GPU.
#[verifier::external_body]
fn stage_culling<'node>(
    state: &rend3_routine::base::BaseRenderGraphIntermediateState,
    graph: &mut rend3::graph::RenderGraph<'node>,
    base: &'node rend3_routine::base::BaseRenderGraph,
    pbr: &'node rend3_routine::pbr::PbrRoutine,
)
    requires
        state_made_on(*old(graph), *state),
    ensures
        only_nodes_added(
            *old(graph),
            *final(graph),
            culling_nodes(state_layout(*state), gpu_driven(*base)),
        ),
        state_made_on(*final(graph), *state),
{
    state.pbr_culling(graph, base, pbr)
}

/// Not proved: calls `pbr_prepass_rendering`, which adds one node for the
/// opaque and one for the cutout kind; each draws into colour, resolve and
/// depth and reads the forward uniforms and the kind's culled list.
#[verifier::external_body]
fn stage_prepass<'node>(
    state: &rend3_routine::base::BaseRenderGraphIntermediateState,
    graph: &mut rend3::graph::RenderGraph<'node>,
    pbr: &'node rend3_routine::pbr::PbrRoutine,
    samples: SampleCount,
)
    requires
        state_made_on(*old(graph), *state),
    ensures
        only_nodes_added(*old(graph), *final(graph), prepass_nodes(state_layout(*state))),
        state_made_on(*final(graph), *state),
{
    let count = match samples {
        SampleCount::One => BackendSamples::One,
        SampleCount::Four => BackendSamples::Four,
    };
    state.pbr_prepass_rendering(graph, pbr, count)
}

/// Not proved: calls `pbr_forward_rendering`, which adds one node for each of
/// the three transparency kinds; each draws into colour, resolve and depth
/// and reads the graph's shadow maps, the forward uniforms and the kind's
/// culled list.
#[verifier::external_body]
fn stage_forward<'node>(
    state: &rend3_routine::base::BaseRenderGraphIntermediateState,
    graph: &mut rend3::graph::RenderGraph<'node>,
    pbr: &'node rend3_routine::pbr::PbrRoutine,
    samples: SampleCount,
)
    requires
        state_made_on(*old(graph), *state),
    ensures
        only_nodes_added(
            *old(graph),
            *final(graph),
            forward_nodes(state_layout(*state), graph_shadows(*old(graph))),
        ),
        state_made_on(*final(graph), *state),
{
    let count = match samples {
        SampleCount::One => BackendSamples::One,
        SampleCount::Four => BackendSamples::Four,
    };
    state.pbr_forward_rendering(graph, pbr, count)
}

/// Not proved: calls `tonemapping`, which adds one node that reads the
/// resolve target, or the colour target where there is none, and the forward
/// uniforms, and has `target` as output.
#[verifier::external_body]
fn stage_tonemapping<'node>(
    state: &rend3_routine::base::BaseRenderGraphIntermediateState,
    graph: &mut rend3::graph::RenderGraph<'node>,
    tonemapping: &'node rend3_routine::tonemapping::TonemappingRoutine,
    target: &rend3::graph::RenderTargetHandle,
)
    requires
        state_made_on(*old(graph), *state),
    ensures
        only_nodes_added(
            *old(graph),
            *final(graph),
            seq![present_node(state_layout(*state), target_slot(*target))],
        ),
        state_made_on(*final(graph), *state),
{
    state.tonemapping(graph, tonemapping, *target)
}

/// Not proved: calls `RenderGraph::add_render_target`, which pushes the
/// descriptor onto the graph's targets and returns a handle of the texture
/// at the position it got; nodes, data slots and shadow maps stay as they
/// were.
#[verifier::external_body]
fn register_target(
    graph: &mut rend3::graph::RenderGraph<'_>,
    desc: RenderTargetDescriptor,
    label: &str,
) -> (h: rend3::graph::RenderTargetHandle)
    requires
        label@ == desc.label.text(),
    ensures
        graph_targets(*final(graph)) == graph_targets(*old(graph)).push(desc),
        target_slot(h) == Slot::Texture(graph_targets(*old(graph)).len()),
        graph_nodes(*final(graph)) == graph_nodes(*old(graph)),
        graph_data_count(*final(graph)) == graph_data_count(*old(graph)),
        graph_shadows(*final(graph)) == graph_shadows(*old(graph)),
        forall|s: rend3_routine::base::BaseRenderGraphIntermediateState|
            state_made_on(*old(graph), s) ==> #[trigger] state_made_on(*final(graph), s),
{
    let mut usage = BackendUsages::empty();
    usage.set(BackendUsages::RENDER_ATTACHMENT, desc.usage.render_attachment);
    usage.set(BackendUsages::TEXTURE_BINDING, desc.usage.texture_binding);
    let samples = match desc.samples {
        SampleCount::One => BackendSamples::One,
        SampleCount::Four => BackendSamples::Four,
    };
    let format = match desc.format {
        TextureFormat::Bgra8UnormSrgb => BackendFormat::Bgra8UnormSrgb,
        TextureFormat::Rgba16Float => BackendFormat::Rgba16Float,
        TextureFormat::Depth32Float => BackendFormat::Depth32Float,
    };
    let resolution = UVec2::new(desc.resolution.width, desc.resolution.height);
    graph.add_render_target(BackendTarget { label: Some(label.into()), resolution, samples, format, usage })
}

/// Registers the presentable target of a frame: the resolution and sample
/// count asked for, 8-bit BGRA sRGB, usable as render attachment and as
/// sampled texture.
pub fn add_output_target(
    graph: &mut rend3::graph::RenderGraph<'_>,
    resolution: Resolution,
    samples: SampleCount,
) -> (output: rend3::graph::RenderTargetHandle)
    ensures
        graph_targets(*final(graph)) == graph_targets(*old(graph)).push(
            output_descriptor(resolution, samples),
        ),
        target_slot(output) == Slot::Texture(graph_targets(*old(graph)).len()),
        graph_nodes(*final(graph)) == graph_nodes(*old(graph)),
        graph_data_count(*final(graph)) == graph_data_count(*old(graph)),
        graph_shadows(*final(graph)) == graph_shadows(*old(graph)),
        forall|s: rend3_routine::base::BaseRenderGraphIntermediateState|
            state_made_on(*old(graph), s) ==> #[trigger] state_made_on(*final(graph), s),
{
    let label = TargetLabel::ViewportOutput;
    register_target(
        graph,
        RenderTargetDescriptor {
            label,
            resolution,
            samples,
            format: TextureFormat::Bgra8UnormSrgb,
            usage: TextureUsages { render_attachment: true, texture_binding: true },
        },
        label.name(),
    )
}

/// The layout of the state of a frame composed on `g`.
pub open spec fn frame_layout(
    g: rend3::graph::RenderGraph<'_>,
    ready: rend3::graph::ReadyData,
    samples: SampleCount,
) -> StateLayout {
    StateLayout {
        data_base: graph_data_count(g),
        target_base: graph_targets(g).len(),
        shadows: shadow_cameras(ready),
        resolve: samples != SampleCount::One,
    }
}

/// The resource of the output target of a frame composed on `g`.
pub open spec fn frame_output(g: rend3::graph::RenderGraph<'_>, samples: SampleCount) -> Slot {
    Slot::Texture(
        graph_targets(g).len() + if samples == SampleCount::One {
            2nat
        } else {
            3nat
        },
    )
}

/// The nodes of a whole frame behind the nodes `before`: the six fixed
/// stages in order, what each routine records, wireframe first, then point
/// cloud, then grid, and the tonemap into `output`.
pub open spec fn frame_nodes<W: OverlayRoutine, P: OverlayRoutine, G: OverlayRoutine>(
    before: Seq<RecordedNode>,
    l: StateLayout,
    gpu: bool,
    shadows: Set<nat>,
    wireframe: &W,
    point_cloud: &P,
    grid: &G,
    output: Slot,
) -> Seq<RecordedNode> {
    let fixed = before + fixed_stage_nodes(l, gpu, shadows);
    let first = fixed + wireframe.appended(fixed, l);
    let second = first + point_cloud.appended(first, l);
    let third = second + grid.appended(second, l);
    third.push(present_node(l, output))
}

/// The position, in the order of attaching, of the first routine that
/// cannot attach, if there is one.
pub open spec fn first_refusal<W: OverlayRoutine, P: OverlayRoutine, G: OverlayRoutine>(
    wireframe: &W,
    point_cloud: &P,
    grid: &G,
) -> Option<usize> {
    if !wireframe.attachable() {
        Some(0usize)
    } else if !point_cloud.attachable() {
        Some(1usize)
    } else if !grid.attachable() {
        Some(2usize)
    } else {
        None
    }
}

/// Adds the necessary nodes to render the 3d viewport of the app. The
/// viewport is rendered into a render target, and its handle is returned.
///
/// The graph gets, behind its own nodes, the six fixed stages in their
/// order, each as its group of nodes, then what the wireframe, the point
/// cloud and the grid routine record, then the tonemap into the new output
/// target. A resolution with a zero component, and a routine that cannot
/// attach, are rejected before anything is added.
pub fn blackjack_viewport_rendergraph<
    'node,
    W: OverlayRoutine,
    P: OverlayRoutine,
    G: OverlayRoutine,
>(
    base: &'node rend3_routine::base::BaseRenderGraph,
    graph: &mut rend3::graph::RenderGraph<'node>,
    ready: &rend3::graph::ReadyData,
    pbr: &'node rend3_routine::pbr::PbrRoutine,
    tonemapping: &'node rend3_routine::tonemapping::TonemappingRoutine,
    grid: &'node G,
    wireframe: &'node W,
    point_cloud: &'node P,
    resolution: Resolution,
    samples: SampleCount,
    ambient: rend3::types::glam::Vec4,
) -> (r: Result<rend3::graph::RenderTargetHandle, ComposeError>)
    ensures
        match r {
            Ok(output) => {
                &&& resolution.is_valid()
                &&& first_refusal(wireframe, point_cloud, grid) is None
                &&& fixed_stage_groups(
                    frame_layout(*old(graph), *ready, samples),
                    gpu_driven(*base),
                    graph_shadows(*old(graph)),
                ).len() == 6
                &&& graph_nodes(*final(graph)) == frame_nodes(
                    graph_nodes(*old(graph)),
                    frame_layout(*old(graph), *ready, samples),
                    gpu_driven(*base),
                    graph_shadows(*old(graph)),
                    wireframe,
                    point_cloud,
                    grid,
                    frame_output(*old(graph), samples),
                )
                &&& graph_targets(*final(graph)) == (graph_targets(*old(graph)) + state_targets(
                    resolution,
                    samples,
                )).push(output_descriptor(resolution, samples))
                &&& target_slot(output) == frame_output(*old(graph), samples)
                &&& graph_data_count(*final(graph)) == graph_data_count(*old(graph))
                    + frame_layout(*old(graph), *ready, samples).data_slots()
                &&& graph_shadows(*final(graph)) == graph_shadows(*old(graph))
            },
            Err(ComposeError::Config(e)) => {
                &&& e == ConfigError::InvalidResolution
                &&& !resolution.is_valid()
                &&& *final(graph) == *old(graph)
            },
            Err(ComposeError::RoutineAttachFailed { index }) => {
                &&& resolution.is_valid()
                &&& first_refusal(wireframe, point_cloud, grid) == Some(index)
                &&& *final(graph) == *old(graph)
            },
        },
{
    if !resolution.is_valid() {
        return Err(ComposeError::Config(ConfigError::InvalidResolution));
    }
    if !wireframe.can_attach() {
        return Err(ComposeError::RoutineAttachFailed { index: 0 });
    }
    if !point_cloud.can_attach() {
        return Err(ComposeError::RoutineAttachFailed { index: 1 });
    }
    if !grid.can_attach() {
        return Err(ComposeError::RoutineAttachFailed { index: 2 });
    }
    // Create intermediate storage
    let state = new_state(graph, ready, resolution, samples);

    // Preparing and uploading data
    stage_pre_culling(&state, graph);
    stage_frame_uniforms(&state, graph, base, ambient);

    // Culling
    stage_shadow_culling(&state, graph, base, pbr);
    stage_culling(&state, graph, base, pbr);

    // Depth-only rendering
    stage_prepass(&state, graph, pbr, samples);

    // Forward rendering
    stage_forward(&state, graph, pbr, samples);
    assert(graph_nodes(*graph) =~= graph_nodes(*old(graph)) + fixed_stage_nodes(
        state_layout(state),
        gpu_driven(*base),
        graph_shadows(*old(graph)),
    ));

    wireframe.add_to_graph(graph, &state);
    point_cloud.add_to_graph(graph, &state);
    grid.add_to_graph(graph, &state);

    // Make the reference to the surface
    let output = add_output_target(graph, resolution, samples);
    stage_tonemapping(&state, graph, tonemapping, &output);

    Ok(output)
}

} // verus!
