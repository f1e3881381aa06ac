//! Frame-graph composition for a 3D viewport.
//!
//! Once per frame the composer threads resource handles through six fixed
//! pipeline stages, lets every overlay routine attach its passes, allocates
//! the presentable output target and closes the graph with the tonemap stage.
//!
//! `backend` records the frame on rend3's render graph and says, node by
//! node, what the graph holds afterwards. There a stage is a group of nodes,
//! one per transparency kind or shadow camera, and a drawing node reads what
//! it writes. `compose` plans a frame with one node per stage on a graph of
//! the library's own, of which acyclicity and single producers are proved.
//! The two are separate statements. `laws` holds what relates them: each
//! dependency between stages of the plan is a dependency between the groups
//! of nodes recorded, with the exceptions named there.

pub mod resource;
pub mod graph;
pub mod routine;
pub mod state;
pub mod compose;
pub mod backend;
pub mod laws;





