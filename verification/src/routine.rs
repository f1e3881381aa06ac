//! Overlay routines: independently owned renderers that attach their passes
//! once the fixed pipeline has produced its handles.

use vstd::prelude::*;
use crate::graph::{GraphView, Node, NodeLabel, NodeView, FramePlan};
use crate::resource::GraphResource;
use crate::state::{IntermediateFrameState, Phase};

verus! {

/// The overlay renderers a viewport knows, and any other that a host plugs
/// in under a number of its own choosing.
#[derive(Clone, Copy, Debug, PartialEq, Eq, Structural)]
pub enum RoutineKind {
    Wireframe,
    PointCloud,
    Grid,
    Custom(u32),
}

/// A routine as its owner hands it to the composer: what it draws, and
/// whether the backend offers what its passes need.
#[derive(Clone, Copy, Debug, PartialEq, Eq, Structural)]
pub struct Routine {
    pub kind: RoutineKind,
    pub supported: bool,
}

/// Why a routine could not attach its passes.
#[derive(Clone, Copy, Debug, PartialEq, Eq, Structural)]
pub enum AttachError {
    /// The backend lacks a feature that the routine's passes depend on.
    Unsupported(RoutineKind),
}

/// The pass of an overlay routine: it draws over the finished frame, and so
/// consumes the frame uniforms, the depth buffer and the colour target.
pub open spec fn overlay_node(kind: RoutineKind, s: IntermediateFrameState) -> NodeView {
    NodeView {
        label: NodeLabel::Overlay(kind),
        reads: seq![
            s.frame_uniforms->0.resource(),
            s.depth->0.resource(),
            s.color->0.resource(),
        ],
        writes: seq![],
    }
}

/// The passes of a list of routines, in the order of the list.
pub open spec fn overlay_nodes(routines: Seq<Routine>, s: IntermediateFrameState) -> Seq<
    NodeView,
> {
    Seq::new(routines.len(), |k: int| overlay_node(routines[k].kind, s))
}

impl Routine {
    /// A routine that can attach.
    pub fn new(kind: RoutineKind) -> (r: Routine)
        ensures
            r == (Routine { kind, supported: true }),
    {
        Routine { kind, supported: true }
    }

    /// A routine whose passes the backend cannot run.
    pub fn unsupported(kind: RoutineKind) -> (r: Routine)
        ensures
            r == (Routine { kind, supported: false }),
    {
        Routine { kind, supported: false }
    }

    /// Attaches the routine's pass to `graph`. The state is only read. A
    /// routine that the backend does not support fails and leaves the graph
    /// as it was.
    pub fn add_to_graph(&self, graph: &mut FramePlan, state: &IntermediateFrameState) -> (r:
        Result<(), AttachError>)
        requires
            old(graph).wf(),
            state.phase == Phase::Forwarded,
            state.consistent(old(graph)@),
        ensures
            self.supported ==> r is Ok && final(graph)@ == old(graph)@.with_node(
                overlay_node(self.kind, *state),
            ),
            !self.supported ==> r == Err::<(), AttachError>(AttachError::Unsupported(self.kind))
                && final(graph)@ == old(graph)@,
            final(graph).wf(),
            state.consistent(final(graph)@),
    {
        if !self.supported {
            return Err(AttachError::Unsupported(self.kind));
        }
        let mut reads: Vec<GraphResource> = Vec::new();
        reads.push(state.frame_uniforms.unwrap().resource());
        reads.push(state.depth.unwrap().resource());
        reads.push(state.color.unwrap().resource());
        let node = Node { label: NodeLabel::Overlay(self.kind), reads, writes: Vec::new() };
        assert(node@.reads =~= overlay_node(self.kind, *state).reads);
        assert(node@ == overlay_node(self.kind, *state));
        graph.add_node(node);
        Ok(())
    }
}

} // verus!
