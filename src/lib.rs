//! Loading a binary glTF scene into CPU-side mesh records, and the decisions of
//! the per-frame render loop that draws it.

pub mod frame;
pub mod glb;
pub mod input;
pub mod le;
pub mod model;
pub mod scene;
pub mod vertex;
