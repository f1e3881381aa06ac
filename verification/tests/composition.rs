use viewport_rendergraph::backend::{add_output_target, NoOverlay, OverlayRoutine};
use viewport_rendergraph::compose::{
    plan_viewport, compose_viewport, find_unsupported, fixed_pipeline, ComposeError,
};
use viewport_rendergraph::graph::{Node, NodeLabel, FramePlan};
use viewport_rendergraph::resource::{
    AmbientLight, BufferHandle, ConfigError, FrameUniforms, GraphResource, HandleKind, ReadySnapshot,
    RenderTargetDescriptor, TargetHandle, Resolution, ResourceDesc, SampleCount,
    TargetLabel, TextureFormat, TextureUsages,
};
use viewport_rendergraph::routine::{AttachError, Routine, RoutineKind};
use viewport_rendergraph::state::{CulledListRange, IntermediateFrameState, Phase};

fn ambient(r: f32, g: f32, b: f32, a: f32) -> AmbientLight {
    AmbientLight { r: r.to_bits(), g: g.to_bits(), b: b.to_bits(), a: a.to_bits() }
}

fn dim() -> AmbientLight {
    ambient(0.1, 0.1, 0.1, 1.0)
}

fn full_hd() -> Resolution {
    Resolution { width: 1920, height: 1080 }
}

fn res(kind: HandleKind, index: usize) -> GraphResource {
    GraphResource { kind, index }
}

fn labels(graph: &FramePlan) -> Vec<NodeLabel> {
    (0..graph.node_count()).map(|i| graph.node(i).unwrap().label).collect()
}

fn edges(graph: &FramePlan) -> Vec<(usize, usize)> {
    let mut found = Vec::new();
    for from in 0..graph.node_count() {
        for to in 0..graph.node_count() {
            if graph.depends_on(from, to) {
                found.push((from, to));
            }
        }
    }
    found
}

fn node_key(node: &Node) -> (String, Vec<GraphResource>, Vec<GraphResource>) {
    (format!("{:?}", node.label), node.reads.clone(), node.writes.clone())
}

fn sorted_nodes(graph: &FramePlan) -> Vec<String> {
    let mut keys: Vec<String> = (0..graph.node_count())
        .map(|i| format!("{:?}", node_key(graph.node(i).unwrap())))
        .collect();
    keys.sort();
    keys
}

fn resources(graph: &FramePlan) -> Vec<ResourceDesc> {
    let kinds = [
        HandleKind::RenderTarget,
        HandleKind::Buffer,
        HandleKind::CulledObjectList,
        HandleKind::Uniforms,
    ];
    (0..graph.resource_count())
        .map(|index| {
            let mut hits = kinds.iter().filter_map(|&kind| graph.resource(res(kind, index)));
            let first = hits.next().unwrap();
            assert!(hits.next().is_none());
            first
        })
        .collect()
}

fn compose(
    lights: usize,
    routines: &[Routine],
    resolution: Resolution,
    samples: SampleCount,
    light: AmbientLight,
) -> (FramePlan, Result<TargetHandle, ComposeError>) {
    let mut graph = FramePlan::new();
    let ready = ReadySnapshot { directional_lights: lights };
    let out = plan_viewport(&mut graph, &ready, routines, resolution, samples, light);
    (graph, out)
}

#[test]
fn full_hd_frame_without_routines() {
    let (graph, out) = compose(0, &[], full_hd(), SampleCount::One, dim());
    let out = out.unwrap();
    assert_eq!(out, TargetHandle { index: 5 });
    assert_eq!(
        graph.render_target(out),
        Some(RenderTargetDescriptor {
            label: TargetLabel::ViewportOutput,
            resolution: Resolution { width: 1920, height: 1080 },
            samples: SampleCount::One,
            format: TextureFormat::Bgra8UnormSrgb,
            usage: TextureUsages { render_attachment: true, texture_binding: true },
        })
    );
    assert_eq!(graph.render_target(out).unwrap().samples.count(), 1);
    assert_eq!(graph.node_count(), 7);
    assert_eq!(
        labels(&graph),
        vec![
            NodeLabel::PreCulling,
            NodeLabel::FrameUniforms,
            NodeLabel::ShadowCulling,
            NodeLabel::Culling,
            NodeLabel::Prepass,
            NodeLabel::Forward,
            NodeLabel::Tonemap,
        ]
    );
}

#[test]
fn full_hd_frame_wiring() {
    let (graph, _) = compose(0, &[], full_hd(), SampleCount::One, dim());
    let buffer = res(HandleKind::Buffer, 0);
    let uniforms = res(HandleKind::Uniforms, 1);
    let culled = res(HandleKind::CulledObjectList, 2);
    let depth = res(HandleKind::RenderTarget, 3);
    let color = res(HandleKind::RenderTarget, 4);
    let output = res(HandleKind::RenderTarget, 5);
    let expect: Vec<(Vec<GraphResource>, Vec<GraphResource>)> = vec![
        (vec![], vec![buffer]),
        (vec![], vec![uniforms]),
        (vec![buffer], vec![]),
        (vec![buffer], vec![culled]),
        (vec![culled], vec![depth]),
        (vec![culled, uniforms, depth], vec![color]),
        (vec![color], vec![output]),
    ];
    for (i, (reads, writes)) in expect.iter().enumerate() {
        let node = graph.node(i).unwrap();
        assert_eq!(&node.reads, reads, "reads of node {}", i);
        assert_eq!(&node.writes, writes, "writes of node {}", i);
    }
    assert_eq!(
        resources(&graph),
        vec![
            ResourceDesc::Buffer,
            ResourceDesc::Uniforms(FrameUniforms { ambient: dim(), resolution: full_hd() }),
            ResourceDesc::CulledObjectList,
            ResourceDesc::RenderTarget(RenderTargetDescriptor {
                label: TargetLabel::Depth,
                resolution: full_hd(),
                samples: SampleCount::One,
                format: TextureFormat::Depth32Float,
                usage: TextureUsages { render_attachment: true, texture_binding: false },
            }),
            ResourceDesc::RenderTarget(RenderTargetDescriptor {
                label: TargetLabel::Color,
                resolution: full_hd(),
                samples: SampleCount::One,
                format: TextureFormat::Rgba16Float,
                usage: TextureUsages { render_attachment: true, texture_binding: true },
            }),
            ResourceDesc::RenderTarget(RenderTargetDescriptor {
                label: TargetLabel::ViewportOutput,
                resolution: full_hd(),
                samples: SampleCount::One,
                format: TextureFormat::Bgra8UnormSrgb,
                usage: TextureUsages { render_attachment: true, texture_binding: true },
            }),
        ]
    );
    assert_eq!(edges(&graph), vec![(0, 2), (0, 3), (1, 5), (3, 4), (3, 5), (4, 5), (5, 6)]);
}

#[test]
fn two_compositions_agree() {
    let routines = [Routine::new(RoutineKind::Wireframe), Routine::new(RoutineKind::Grid)];
    let resolution = Resolution { width: 640, height: 480 };
    let (a, out_a) = compose(2, &routines, resolution, SampleCount::Four, dim());
    let (b, out_b) = compose(2, &routines, resolution, SampleCount::Four, dim());
    assert_eq!(out_a, out_b);
    assert_eq!(a.node_count(), b.node_count());
    assert_eq!(a.node_count(), 9);
    assert_eq!(edges(&a), edges(&b));
    assert_eq!(resources(&a), resources(&b));
    assert_eq!(labels(&a), labels(&b));
}

#[test]
fn ambient_light_leaves_the_topology_alone() {
    let (a, _) = compose(1, &[], full_hd(), SampleCount::One, dim());
    let (b, _) = compose(1, &[], full_hd(), SampleCount::One, ambient(1.0, 0.5, 0.25, 1.0));
    assert_eq!(edges(&a), edges(&b));
    assert_eq!(sorted_nodes(&a), sorted_nodes(&b));
    assert_ne!(resources(&a), resources(&b));
    assert_eq!(
        b.resource(res(HandleKind::Uniforms, 1)),
        Some(ResourceDesc::Uniforms(FrameUniforms {
            ambient: AmbientLight { r: 0x3f80_0000, g: 0x3f00_0000, b: 0x3e80_0000, a: 0x3f80_0000 },
            resolution: full_hd(),
        }))
    );
}

#[test]
fn every_edge_points_forward() {
    let routines = [
        Routine::new(RoutineKind::Wireframe),
        Routine::new(RoutineKind::PointCloud),
        Routine::new(RoutineKind::Grid),
    ];
    let (graph, _) = compose(3, &routines, full_hd(), SampleCount::Four, dim());
    assert_eq!(graph.node_count(), 10);
    for from in 0..graph.node_count() {
        for to in 0..=from {
            assert!(!graph.depends_on(from, to), "edge {} -> {}", from, to);
        }
    }
    assert!(graph.depends_on(5, 6));
    assert!(graph.depends_on(5, 9));
    assert!(!graph.depends_on(6, 7));
    assert!(!graph.depends_on(0, 10));
    assert!(!graph.depends_on(10, 0));
}

#[test]
fn output_matches_the_configuration() {
    for &(width, height, samples) in
        &[(1u32, 1u32, SampleCount::One), (800, 600, SampleCount::Four), (u32::MAX, 7, SampleCount::One)]
    {
        let resolution = Resolution { width, height };
        let routines = [Routine::new(RoutineKind::PointCloud)];
        let (graph, out) = compose(4, &routines, resolution, samples, dim());
        let desc = graph.render_target(out.unwrap()).unwrap();
        assert_eq!(desc.resolution, resolution);
        assert_eq!(desc.samples, samples);
        assert_eq!(desc.format, TextureFormat::Bgra8UnormSrgb);
        assert_eq!(desc.usage, TextureUsages { render_attachment: true, texture_binding: true });
        assert_eq!(desc.label, TargetLabel::ViewportOutput);
    }
}

#[test]
fn baseline_leaves_nothing_dangling() {
    let (graph, out) = compose(0, &[], full_hd(), SampleCount::One, dim());
    let out = out.unwrap();
    for j in 0..graph.node_count() {
        for read in &graph.node(j).unwrap().reads {
            let produced = (0..j).any(|i| graph.node(i).unwrap().writes.contains(read));
            assert!(produced, "node {} reads {:?}", j, read);
        }
    }
    for i in 0..graph.node_count() - 1 {
        for write in &graph.node(i).unwrap().writes {
            let consumed =
                (i + 1..graph.node_count()).any(|j| graph.node(j).unwrap().reads.contains(write));
            assert!(consumed, "node {} writes {:?}", i, write);
        }
    }
    assert_eq!(graph.node(6).unwrap().writes, vec![out.resource()]);
}

#[test]
fn routine_order_changes_only_the_order() {
    let a = [Routine::new(RoutineKind::Wireframe), Routine::new(RoutineKind::PointCloud)];
    let b = [Routine::new(RoutineKind::Grid)];
    let ab: Vec<Routine> = a.iter().chain(b.iter()).copied().collect();
    let ba: Vec<Routine> = b.iter().chain(a.iter()).copied().collect();
    let (first, out_first) = compose(1, &ab, full_hd(), SampleCount::One, dim());
    let (second, out_second) = compose(1, &ba, full_hd(), SampleCount::One, dim());
    assert_eq!(out_first, out_second);
    assert_eq!(resources(&first), resources(&second));
    assert_eq!(sorted_nodes(&first), sorted_nodes(&second));
    assert_ne!(labels(&first), labels(&second));
    assert_eq!(
        &labels(&first)[6..9],
        &[
            NodeLabel::Overlay(RoutineKind::Wireframe),
            NodeLabel::Overlay(RoutineKind::PointCloud),
            NodeLabel::Overlay(RoutineKind::Grid),
        ]
    );
    assert_eq!(labels(&second)[6], NodeLabel::Overlay(RoutineKind::Grid));
}

#[test]
fn routines_read_the_finished_frame() {
    let routines = [Routine::new(RoutineKind::Grid)];
    let (graph, out) = compose(2, &routines, full_hd(), SampleCount::One, dim());
    assert_eq!(out, Ok(TargetHandle { index: 7 }));
    let overlay = graph.node(6).unwrap();
    assert_eq!(overlay.label, NodeLabel::Overlay(RoutineKind::Grid));
    assert_eq!(
        overlay.reads,
        vec![
            res(HandleKind::Uniforms, 1),
            res(HandleKind::RenderTarget, 5),
            res(HandleKind::RenderTarget, 6),
        ]
    );
    assert!(overlay.writes.is_empty());
    assert_eq!(graph.node(7).unwrap().label, NodeLabel::Tonemap);
    assert_eq!(graph.resource_count(), 8);
}

#[test]
fn one_culled_list_per_shadow_light() {
    let (graph, out) = compose(3, &[], full_hd(), SampleCount::One, dim());
    assert_eq!(out, Ok(TargetHandle { index: 8 }));
    assert_eq!(graph.resource_count(), 9);
    let shadow = graph.node(2).unwrap();
    assert_eq!(shadow.label, NodeLabel::ShadowCulling);
    assert_eq!(shadow.reads, vec![res(HandleKind::Buffer, 0)]);
    assert_eq!(
        shadow.writes,
        vec![
            res(HandleKind::CulledObjectList, 2),
            res(HandleKind::CulledObjectList, 3),
            res(HandleKind::CulledObjectList, 4),
        ]
    );
    assert_eq!(graph.node(3).unwrap().writes, vec![res(HandleKind::CulledObjectList, 5)]);
}

#[test]
fn zero_width_is_rejected() {
    let (graph, out) =
        compose(1, &[], Resolution { width: 0, height: 1080 }, SampleCount::One, dim());
    assert_eq!(out, Err(ComposeError::Config(ConfigError::InvalidResolution)));
    assert_eq!(graph.node_count(), 0);
    assert_eq!(graph.resource_count(), 0);
}

#[test]
fn zero_height_is_rejected() {
    let routines = [Routine::unsupported(RoutineKind::Grid)];
    let (graph, out) =
        compose(1, &routines, Resolution { width: 1920, height: 0 }, SampleCount::Four, dim());
    assert_eq!(out, Err(ComposeError::Config(ConfigError::InvalidResolution)));
    assert_eq!(graph.node_count(), 0);
    assert_eq!(graph.resource_count(), 0);
}

#[test]
fn unsupported_routine_fails_the_whole_call() {
    let routines = [
        Routine::new(RoutineKind::Wireframe),
        Routine::unsupported(RoutineKind::PointCloud),
        Routine::unsupported(RoutineKind::Grid),
    ];
    let (graph, out) = compose(1, &routines, full_hd(), SampleCount::One, dim());
    assert_eq!(out, Err(ComposeError::RoutineAttachFailed { index: 1 }));
    assert_eq!(graph.node_count(), 0);
    assert_eq!(graph.resource_count(), 0);
    assert_eq!(find_unsupported(&routines), Some(1));
    assert_eq!(find_unsupported(&routines[..1]), None);
    assert_eq!(find_unsupported(&[]), None);
}

#[test]
fn failed_call_keeps_an_earlier_frame() {
    let mut graph = FramePlan::new();
    let ready = ReadySnapshot { directional_lights: 0 };
    let first =
        plan_viewport(&mut graph, &ready, &[], full_hd(), SampleCount::One, dim());
    assert_eq!(first, Ok(TargetHandle { index: 5 }));
    let before = (labels(&graph), resources(&graph), edges(&graph));
    let bad = [Routine::unsupported(RoutineKind::Wireframe)];
    let second =
        plan_viewport(&mut graph, &ready, &bad, full_hd(), SampleCount::One, dim());
    assert_eq!(second, Err(ComposeError::RoutineAttachFailed { index: 0 }));
    assert_eq!(before, (labels(&graph), resources(&graph), edges(&graph)));
}

#[test]
fn second_viewport_on_the_same_graph() {
    let mut graph = FramePlan::new();
    let ready = ReadySnapshot { directional_lights: 1 };
    let small = Resolution { width: 320, height: 200 };
    let first =
        plan_viewport(&mut graph, &ready, &[], full_hd(), SampleCount::One, dim());
    let second =
        plan_viewport(&mut graph, &ready, &[], small, SampleCount::Four, dim());
    assert_eq!(first, Ok(TargetHandle { index: 6 }));
    assert_eq!(second, Ok(TargetHandle { index: 13 }));
    assert_eq!(graph.node_count(), 14);
    assert_eq!(graph.render_target(first.unwrap()).unwrap().resolution, full_hd());
    assert_eq!(graph.render_target(second.unwrap()).unwrap().resolution, small);
    assert_eq!(graph.render_target(second.unwrap()).unwrap().samples, SampleCount::Four);
    for from in 0..graph.node_count() {
        for to in 0..=from {
            assert!(!graph.depends_on(from, to));
        }
    }
    assert!(!graph.depends_on(0, 9));
    assert!(graph.depends_on(7, 9));
}

#[test]
fn sample_counts() {
    assert_eq!(SampleCount::from_count(1), Ok(SampleCount::One));
    assert_eq!(SampleCount::from_count(4), Ok(SampleCount::Four));
    for n in [0u8, 2, 3, 5, 8, 16, 255] {
        assert_eq!(SampleCount::from_count(n), Err(ConfigError::UnsupportedSampleCount));
    }
    assert_eq!(SampleCount::One.count(), 1);
    assert_eq!(SampleCount::Four.count(), 4);
}

#[test]
fn resolution_validity() {
    assert!(Resolution { width: 1, height: 1 }.is_valid());
    assert!(!Resolution { width: 0, height: 1 }.is_valid());
    assert!(!Resolution { width: 1, height: 0 }.is_valid());
    assert!(!Resolution { width: 0, height: 0 }.is_valid());
}

#[test]
fn new_state_has_no_handles() {
    let ready = ReadySnapshot { directional_lights: 2 };
    let state = IntermediateFrameState::new(&ready, full_hd(), SampleCount::Four);
    assert_eq!(
        state,
        IntermediateFrameState {
            resolution: full_hd(),
            samples: SampleCount::Four,
            shadow_lights: 2,
            phase: Phase::Created,
            object_buffer: None,
            frame_uniforms: None,
            shadow_culled: None,
            culled: None,
            depth: None,
            color: None,
        }
    );
}

#[test]
fn stages_record_their_handles() {
    let mut graph = FramePlan::new();
    let ready = ReadySnapshot { directional_lights: 2 };
    let mut state = IntermediateFrameState::new(&ready, full_hd(), SampleCount::One);
    state.pre_culling(&mut graph);
    assert_eq!(state.phase, Phase::PreCulled);
    assert_eq!(state.object_buffer, Some(BufferHandle { index: 0 }));
    assert_eq!(graph.node_count(), 1);
    state.create_frame_uniforms(&mut graph, dim(), full_hd());
    assert_eq!(state.phase, Phase::UniformsCreated);
    assert_eq!(state.frame_uniforms.unwrap().index, 1);
    state.shadow_culling(&mut graph);
    assert_eq!(state.phase, Phase::ShadowCulled);
    assert_eq!(state.shadow_culled, Some(CulledListRange { first: 2, count: 2 }));
    assert_eq!(graph.resource_count(), 4);
    state.culling(&mut graph);
    assert_eq!(state.phase, Phase::Culled);
    assert_eq!(state.culled.unwrap().index, 4);
    state.prepass_rendering(&mut graph, SampleCount::One);
    assert_eq!(state.phase, Phase::Prepassed);
    assert_eq!(state.depth, Some(TargetHandle { index: 5 }));
    assert_eq!(state.color, None);
    state.forward_rendering(&mut graph, SampleCount::One);
    assert_eq!(state.phase, Phase::Forwarded);
    assert_eq!(state.color, Some(TargetHandle { index: 6 }));
    assert_eq!(graph.node_count(), 6);
    assert_eq!(graph.resource_count(), 7);

    let mut other = FramePlan::new();
    let piped = fixed_pipeline(&mut other, &ready, full_hd(), SampleCount::One, dim());
    assert_eq!(piped, state);
    assert_eq!(labels(&other), labels(&graph));
    assert_eq!(edges(&other), edges(&graph));

    let target = graph.add_render_target(RenderTargetDescriptor {
        label: TargetLabel::ViewportOutput,
        resolution: full_hd(),
        samples: SampleCount::One,
        format: TextureFormat::Bgra8UnormSrgb,
        usage: TextureUsages { render_attachment: true, texture_binding: true },
    });
    state.tonemapping(&mut graph, target);
    let last = graph.node(6).unwrap();
    assert_eq!(last.label, NodeLabel::Tonemap);
    assert_eq!(last.reads, vec![res(HandleKind::RenderTarget, 6)]);
    assert_eq!(last.writes, vec![res(HandleKind::RenderTarget, 7)]);
}

#[test]
fn routine_attaches_or_leaves_the_graph() {
    let mut graph = FramePlan::new();
    let ready = ReadySnapshot { directional_lights: 0 };
    let state = fixed_pipeline(&mut graph, &ready, full_hd(), SampleCount::One, dim());
    let failed = Routine::unsupported(RoutineKind::PointCloud).add_to_graph(&mut graph, &state);
    assert_eq!(failed, Err(AttachError::Unsupported(RoutineKind::PointCloud)));
    assert_eq!(graph.node_count(), 6);
    let done = Routine::new(RoutineKind::PointCloud).add_to_graph(&mut graph, &state);
    assert_eq!(done, Ok(()));
    assert_eq!(graph.node_count(), 7);
    assert_eq!(graph.resource_count(), 5);
    assert_eq!(graph.node(6).unwrap().label, NodeLabel::Overlay(RoutineKind::PointCloud));
    assert_eq!(Routine::new(RoutineKind::Grid), Routine { kind: RoutineKind::Grid, supported: true });
}

#[test]
fn graph_lookups() {
    let mut graph = FramePlan::new();
    assert_eq!(graph.node_count(), 0);
    assert!(graph.node(0).is_none());
    let buffer = graph.add_buffer();
    let list = graph.add_culled_list();
    let uniforms = graph.add_uniforms(FrameUniforms { ambient: dim(), resolution: full_hd() });
    assert_eq!((buffer.index, list.index, uniforms.index), (0, 1, 2));
    assert_eq!(buffer.resource(), res(HandleKind::Buffer, 0));
    assert_eq!(list.resource(), res(HandleKind::CulledObjectList, 1));
    assert_eq!(uniforms.resource(), res(HandleKind::Uniforms, 2));
    assert_eq!(graph.resource(buffer.resource()), Some(ResourceDesc::Buffer));
    assert_eq!(graph.resource(res(HandleKind::Uniforms, 0)), None);
    assert_eq!(graph.resource(res(HandleKind::Buffer, 3)), None);
    assert_eq!(graph.render_target(TargetHandle { index: 0 }), None);
    assert_eq!(graph.render_target(TargetHandle { index: 9 }), None);
    graph.add_node(Node {
        label: NodeLabel::PreCulling,
        reads: vec![],
        writes: vec![buffer.resource()],
    });
    graph.add_node(Node {
        label: NodeLabel::Culling,
        reads: vec![buffer.resource()],
        writes: vec![list.resource()],
    });
    assert!(graph.depends_on(0, 1));
    assert!(!graph.depends_on(1, 0));
    assert!(!graph.depends_on(0, 0));
    assert!(graph.node(2).is_none());
}

#[test]
fn plain_numbers_compose_the_same_frame() {
    let routines = [Routine::new(RoutineKind::Wireframe)];
    let ready = ReadySnapshot { directional_lights: 1 };
    let mut graph = FramePlan::new();
    let out = compose_viewport(&mut graph, &ready, &routines, 1920, 1080, 4, dim());
    let (typed, typed_out) = compose(1, &routines, full_hd(), SampleCount::Four, dim());
    assert_eq!(out, typed_out);
    assert_eq!(out, Ok(TargetHandle { index: 6 }));
    assert_eq!(labels(&graph), labels(&typed));
    assert_eq!(resources(&graph), resources(&typed));
    assert_eq!(edges(&graph), edges(&typed));
    assert_eq!(graph.render_target(out.unwrap()).unwrap().samples, SampleCount::Four);
}

#[test]
fn plain_numbers_are_checked_in_order() {
    let ready = ReadySnapshot { directional_lights: 0 };
    let bad = [Routine::unsupported(RoutineKind::Grid)];
    let mut graph = FramePlan::new();
    assert_eq!(
        compose_viewport(&mut graph, &ready, &bad, 0, 1080, 2, dim()),
        Err(ComposeError::Config(ConfigError::InvalidResolution))
    );
    assert_eq!(
        compose_viewport(&mut graph, &ready, &bad, 1920, 1080, 2, dim()),
        Err(ComposeError::Config(ConfigError::UnsupportedSampleCount))
    );
    assert_eq!(
        compose_viewport(&mut graph, &ready, &bad, 1920, 1080, 1, dim()),
        Err(ComposeError::RoutineAttachFailed { index: 0 })
    );
    assert_eq!(
        compose_viewport(&mut graph, &ready, &[], 1920, 1080, 8, dim()),
        Err(ComposeError::Config(ConfigError::UnsupportedSampleCount))
    );
    assert_eq!(graph.node_count(), 0);
    assert_eq!(graph.resource_count(), 0);
    assert_eq!(
        compose_viewport(&mut graph, &ready, &[], 1920, 1080, 1, dim()),
        Ok(TargetHandle { index: 5 })
    );
    assert_eq!(graph.node_count(), 7);
}

#[test]
fn target_names() {
    assert_eq!(TargetLabel::ViewportOutput.name(), "Blackjack Viewport Output");
    assert_eq!(TargetLabel::Color.name(), "hdr color");
    assert_eq!(TargetLabel::Resolve.name(), "hdr resolve");
    assert_eq!(TargetLabel::Depth.name(), "hdr depth");
}

#[test]
fn frozen_graph_reads_the_same() {
    let routines = [Routine::new(RoutineKind::Grid)];
    let (graph, out) = compose(1, &routines, full_hd(), SampleCount::One, dim());
    let before = (labels(&graph), resources(&graph), edges(&graph));
    let frozen = graph.freeze();
    let held = frozen.graph();
    assert_eq!(before, (labels(held), resources(held), edges(held)));
    assert_eq!(held.node_count(), 8);
    assert_eq!(held.render_target(out.unwrap()).unwrap().label, TargetLabel::ViewportOutput);
}

#[test]
fn composition_only_appends() {
    let mut graph = FramePlan::new();
    let ready = ReadySnapshot { directional_lights: 2 };
    let routines = [Routine::new(RoutineKind::Wireframe)];
    plan_viewport(&mut graph, &ready, &[], full_hd(), SampleCount::One, dim())
        .unwrap();
    let (old_labels, old_resources) = (labels(&graph), resources(&graph));
    plan_viewport(&mut graph, &ready, &routines, full_hd(), SampleCount::Four, dim())
        .unwrap();
    assert_eq!(&labels(&graph)[..old_labels.len()], &old_labels[..]);
    assert_eq!(&resources(&graph)[..old_resources.len()], &old_resources[..]);
    assert_eq!(graph.node_count(), 7 + 8);
    assert_eq!(graph.resource_count(), 8 + 8);
}

#[test]
fn output_targets_get_handles_of_their_own() {
    let mut graph = rend3::graph::RenderGraph::new();
    let first = add_output_target(&mut graph, full_hd(), SampleCount::One);
    let second = add_output_target(&mut graph, full_hd(), SampleCount::Four);
    let third = add_output_target(&mut graph, Resolution { width: 1, height: 1 }, SampleCount::One);
    assert_ne!(first, second);
    assert_ne!(second, third);
    assert_ne!(first, third);
    assert_eq!(first, first);

    let mut other = rend3::graph::RenderGraph::new();
    let again = add_output_target(&mut other, full_hd(), SampleCount::One);
    assert_eq!(again, first);
    assert_ne!(add_output_target(&mut other, full_hd(), SampleCount::One), first);
}

#[test]
fn host_routines_plug_in() {
    let routines = [Routine::new(RoutineKind::Custom(7)), Routine::new(RoutineKind::Custom(8))];
    let (graph, out) = compose(0, &routines, full_hd(), SampleCount::One, dim());
    assert_eq!(out, Ok(TargetHandle { index: 5 }));
    assert_eq!(graph.node_count(), 9);
    assert_eq!(graph.node(6).unwrap().label, NodeLabel::Overlay(RoutineKind::Custom(7)));
    assert_eq!(graph.node(7).unwrap().label, NodeLabel::Overlay(RoutineKind::Custom(8)));
    assert_eq!(graph.node(8).unwrap().label, NodeLabel::Tonemap);
}

#[test]
fn no_overlay_always_attaches() {
    assert!(NoOverlay.can_attach());
}
