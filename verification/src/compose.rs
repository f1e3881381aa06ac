//! The composer: fixed stages, overlay routines, output target, tonemap.

use vstd::prelude::*;
use crate::graph::{GraphView, NodeView, FramePlan};
use crate::laws::{acyclic, lemma_well_formed_is_acyclic};
use crate::resource::{
    supported_sample_count, AmbientLight, BufferHandle, ConfigError, CulledObjectListHandle,
    FrameUniforms, ReadySnapshot,
    RenderTargetDescriptor, TargetHandle, Resolution, ResourceDesc, SampleCount,
    TargetLabel, TextureFormat, TextureUsages, UniformsHandle,
};
use crate::routine::{overlay_nodes, Routine};
use crate::state::{
    color_descriptor, culling_node, depth_descriptor, forward_node, pre_culling_node,
    prepass_node, shadow_culling_node, tonemap_node, uniforms_node, CulledListRange,
    IntermediateFrameState, Phase,
};

verus! {

/// Why no graph was composed.
#[derive(Clone, Copy, Debug, PartialEq, Eq, Structural)]
pub enum ComposeError {
    /// The frame's configuration is rejected.
    Config(ConfigError),
    /// The routine at this position of the list cannot attach its passes.
    RoutineAttachFailed { index: usize },
}

/// The presentable target that the frame ends in.
pub open spec fn output_descriptor(resolution: Resolution, samples: SampleCount)
    -> RenderTargetDescriptor {
    RenderTargetDescriptor {
        label: TargetLabel::ViewportOutput,
        resolution,
        samples,
        format: TextureFormat::Bgra8UnormSrgb,
        usage: TextureUsages { render_attachment: true, texture_binding: true },
    }
}

/// The state once the six fixed stages have run on a graph that held `base`
/// resources before.
pub open spec fn frame_state(
    base: nat,
    ready: ReadySnapshot,
    resolution: Resolution,
    samples: SampleCount,
) -> IntermediateFrameState {
    let n = ready.directional_lights as nat;
    IntermediateFrameState {
        resolution,
        samples,
        shadow_lights: ready.directional_lights,
        phase: Phase::Forwarded,
        object_buffer: Some(BufferHandle { index: base as usize }),
        frame_uniforms: Some(UniformsHandle { index: (base + 1) as usize }),
        shadow_culled: Some(
            CulledListRange { first: (base + 2) as usize, count: ready.directional_lights },
        ),
        culled: Some(CulledObjectListHandle { index: (base + 2 + n) as usize }),
        depth: Some(TargetHandle { index: (base + 3 + n) as usize }),
        color: Some(TargetHandle { index: (base + 4 + n) as usize }),
    }
}

/// The handle of the output target of a frame composed on a graph that held
/// `base` resources before.
pub open spec fn output_handle(base: nat, ready: ReadySnapshot) -> TargetHandle {
    TargetHandle { index: (base + 5 + ready.directional_lights as nat) as usize }
}

/// What the six fixed stages register, in order.
pub open spec fn fixed_resources(
    ready: ReadySnapshot,
    resolution: Resolution,
    samples: SampleCount,
    ambient: AmbientLight,
) -> Seq<ResourceDesc> {
    seq![ResourceDesc::Buffer, ResourceDesc::Uniforms(FrameUniforms { ambient, resolution })]
        + Seq::new(ready.directional_lights as nat, |i: int| ResourceDesc::CulledObjectList)
        + seq![
        ResourceDesc::CulledObjectList,
        ResourceDesc::RenderTarget(depth_descriptor(resolution, samples)),
        ResourceDesc::RenderTarget(color_descriptor(resolution, samples)),
    ]
}

/// The six nodes of the fixed stages, in order, over the handles in `s`.
pub open spec fn fixed_nodes(s: IntermediateFrameState) -> Seq<NodeView> {
    seq![
        pre_culling_node(s.object_buffer->0),
        uniforms_node(s.frame_uniforms->0),
        shadow_culling_node(s.object_buffer->0, s.shadow_culled->0),
        culling_node(s.object_buffer->0, s.culled->0),
        prepass_node(s.culled->0, s.depth->0),
        forward_node(s.culled->0, s.frame_uniforms->0, s.depth->0, s.color->0),
    ]
}

/// The graph of a whole frame: what `g` held, then the fixed stages, then
/// the passes of the routines in the order given, then the output target
/// and the tonemap node that fills it.
pub open spec fn composed(
    g: GraphView,
    ready: ReadySnapshot,
    routines: Seq<Routine>,
    resolution: Resolution,
    samples: SampleCount,
    ambient: AmbientLight,
) -> GraphView {
    let s = frame_state(g.resources.len(), ready, resolution, samples);
    let out = output_handle(g.resources.len(), ready);
    GraphView {
        resources: g.resources + fixed_resources(ready, resolution, samples, ambient)
            + seq![ResourceDesc::RenderTarget(output_descriptor(resolution, samples))],
        nodes: g.nodes + fixed_nodes(s) + overlay_nodes(routines, s) + seq![
            tonemap_node(s.color->0, out),
        ],
    }
}

/// `k` is the position of the first routine that cannot attach.
pub open spec fn first_unsupported(routines: Seq<Routine>, k: int) -> bool {
    &&& 0 <= k < routines.len()
    &&& !routines[k].supported
    &&& forall|j: int| 0 <= j < k ==> (#[trigger] routines[j]).supported
}

/// Every routine of the list can attach.
pub open spec fn all_supported(routines: Seq<Routine>) -> bool {
    forall|j: int| 0 <= j < routines.len() ==> (#[trigger] routines[j]).supported
}

/// The position of the first routine that cannot attach, if there is one.
pub fn find_unsupported(routines: &[Routine]) -> (r: Option<usize>)
    ensures
        match r {
            Some(k) => first_unsupported(routines@, k as int),
            None => all_supported(routines@),
        },
{
    let mut k: usize = 0;
    while k < routines.len()
        invariant
            k <= routines@.len(),
            forall|j: int| 0 <= j < k ==> (#[trigger] routines@[j]).supported,
        decreases routines@.len() - k,
    {
        if !routines[k].supported {
            return Some(k);
        }
        k += 1;
    }
    None
}

/// Runs the six fixed stages in their order on a fresh state.
pub fn fixed_pipeline(
    graph: &mut FramePlan,
    ready: &ReadySnapshot,
    resolution: Resolution,
    samples: SampleCount,
    ambient: AmbientLight,
) -> (state: IntermediateFrameState)
    requires
        old(graph).wf(),
        resolution.is_valid(),
    ensures
        final(graph).wf(),
        state == frame_state(old(graph)@.resources.len(), *ready, resolution, samples),
        state.consistent(final(graph)@),
        final(graph)@.resources == old(graph)@.resources + fixed_resources(
            *ready,
            resolution,
            samples,
            ambient,
        ),
        final(graph)@.nodes == old(graph)@.nodes + fixed_nodes(state),
{
    let mut state = IntermediateFrameState::new(ready, resolution, samples);

    // Preparing and uploading data
    state.pre_culling(graph);
    state.create_frame_uniforms(graph, ambient, resolution);

    // Culling
    state.shadow_culling(graph);
    state.culling(graph);

    // Depth-only rendering
    state.prepass_rendering(graph, samples);

    // Forward rendering
    state.forward_rendering(graph, samples);

    proof {
        let base = old(graph)@.resources.len();
        assert(graph@.resources.len() == base + 5 + ready.directional_lights);
        assert(graph@.resources =~= old(graph)@.resources + fixed_resources(
            *ready,
            resolution,
            samples,
            ambient,
        ));
        assert(state == frame_state(base, *ready, resolution, samples));
        let m = old(graph)@.nodes.len() as int;
        let want = old(graph)@.nodes + fixed_nodes(state);
        assert(graph@.nodes.len() == m + 6);
        assert(graph@.nodes[m] == want[m]);
        assert(graph@.nodes[m + 1] == want[m + 1]);
        assert(graph@.nodes[m + 2] == want[m + 2]);
        assert(graph@.nodes[m + 3] == want[m + 3]);
        assert(graph@.nodes[m + 4] == want[m + 4]);
        assert(graph@.nodes[m + 5] == want[m + 5]);
        assert(graph@.nodes =~= want);
    }
    state
}

/// Adds the nodes that render the 3D viewport: the fixed pipeline, the
/// passes of `routines` in the order given, and the tonemap into a new
/// output target, whose handle is returned.
///
/// A resolution with a zero component and a routine that cannot attach are
/// rejected before anything is added.
pub fn plan_viewport(
    graph: &mut FramePlan,
    ready: &ReadySnapshot,
    routines: &[Routine],
    resolution: Resolution,
    samples: SampleCount,
    ambient: AmbientLight,
) -> (r: Result<TargetHandle, ComposeError>)
    requires
        old(graph).wf(),
    ensures
        final(graph).wf(),
        acyclic(final(graph)@),
        match r {
            Ok(output) => {
                &&& resolution.is_valid()
                &&& all_supported(routines@)
                &&& final(graph)@ == composed(
                    old(graph)@,
                    *ready,
                    routines@,
                    resolution,
                    samples,
                    ambient,
                )
                &&& output == output_handle(old(graph)@.resources.len(), *ready)
                &&& final(graph)@.holds(output.resource())
                &&& final(graph)@.resources[output.index as int] == ResourceDesc::RenderTarget(
                    output_descriptor(resolution, samples),
                )
            },
            Err(ComposeError::Config(e)) => {
                &&& e == ConfigError::InvalidResolution
                &&& !resolution.is_valid()
                &&& final(graph)@ == old(graph)@
            },
            Err(ComposeError::RoutineAttachFailed { index }) => {
                &&& resolution.is_valid()
                &&& first_unsupported(routines@, index as int)
                &&& final(graph)@ == old(graph)@
            },
        },
{
    proof {
        lemma_well_formed_is_acyclic(graph@);
    }
    if !resolution.is_valid() {
        return Err(ComposeError::Config(ConfigError::InvalidResolution));
    }
    if let Some(index) = find_unsupported(routines) {
        return Err(ComposeError::RoutineAttachFailed { index });
    }
    let state = fixed_pipeline(graph, ready, resolution, samples, ambient);
    let ghost fixed = graph@;

    let mut k: usize = 0;
    while k < routines.len()
        invariant
            k <= routines@.len(),
            all_supported(routines@),
            graph.wf(),
            state.phase == Phase::Forwarded,
            state.consistent(graph@),
            graph@.resources == fixed.resources,
            graph@.nodes =~= fixed.nodes + overlay_nodes(routines@.take(k as int), state),
        decreases routines@.len() - k,
    {
        let attached = routines[k].add_to_graph(graph, &state);
        assert(attached is Ok);
        k += 1;
    }
    assert(routines@.take(k as int) =~= routines@);

    // Make the reference to the surface
    let output = graph.add_render_target(
        RenderTargetDescriptor {
            label: TargetLabel::ViewportOutput,
            resolution,
            samples,
            format: TextureFormat::Bgra8UnormSrgb,
            usage: TextureUsages { render_attachment: true, texture_binding: true },
        },
    );
    state.tonemapping(graph, output);
    proof {
        lemma_well_formed_is_acyclic(graph@);
        let want = composed(old(graph)@, *ready, routines@, resolution, samples, ambient);
        assert(graph@.resources =~= want.resources);
        assert(graph@.nodes =~= want.nodes);
    }
    Ok(output)
}

/// Composes the viewport's frame from a configuration given in plain
/// numbers. A resolution with a zero component is rejected first, then a
/// sample count that the backend does not have, then a routine that cannot
/// attach; a rejected call adds nothing to the graph.
pub fn compose_viewport(
    graph: &mut FramePlan,
    ready: &ReadySnapshot,
    routines: &[Routine],
    width: u32,
    height: u32,
    sample_count: u8,
    ambient: AmbientLight,
) -> (r: Result<TargetHandle, ComposeError>)
    requires
        old(graph).wf(),
    ensures
        final(graph).wf(),
        acyclic(final(graph)@),
        match r {
            Ok(output) => {
                &&& width > 0 && height > 0
                &&& supported_sample_count(sample_count) is Some
                &&& all_supported(routines@)
                &&& final(graph)@ == composed(
                    old(graph)@,
                    *ready,
                    routines@,
                    Resolution { width, height },
                    supported_sample_count(sample_count)->0,
                    ambient,
                )
                &&& output == output_handle(old(graph)@.resources.len(), *ready)
                &&& final(graph)@.holds(output.resource())
                &&& final(graph)@.resources[output.index as int] == ResourceDesc::RenderTarget(
                    output_descriptor(
                        Resolution { width, height },
                        supported_sample_count(sample_count)->0,
                    ),
                )
            },
            Err(ComposeError::Config(ConfigError::InvalidResolution)) => {
                &&& width == 0 || height == 0
                &&& final(graph)@ == old(graph)@
            },
            Err(ComposeError::Config(ConfigError::UnsupportedSampleCount)) => {
                &&& width > 0 && height > 0
                &&& supported_sample_count(sample_count) is None
                &&& final(graph)@ == old(graph)@
            },
            Err(ComposeError::RoutineAttachFailed { index }) => {
                &&& width > 0 && height > 0
                &&& supported_sample_count(sample_count) is Some
                &&& first_unsupported(routines@, index as int)
                &&& final(graph)@ == old(graph)@
            },
        },
{
    let resolution = Resolution { width, height };
    if !resolution.is_valid() {
        proof {
            lemma_well_formed_is_acyclic(graph@);
        }
        return Err(ComposeError::Config(ConfigError::InvalidResolution));
    }
    match SampleCount::from_count(sample_count) {
        Ok(samples) => plan_viewport(
            graph,
            ready,
            routines,
            resolution,
            samples,
            ambient,
        ),
        Err(e) => {
            proof {
                lemma_well_formed_is_acyclic(graph@);
            }
            Err(ComposeError::Config(e))
        },
    }
}

} // verus!
