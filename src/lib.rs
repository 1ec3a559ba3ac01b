//! A compute-shader presentation core: the binding layout a compute shader declares, the
//! resolution of its source's inclusion requests, and the decisions of the frame loop that
//! dispatches it every frame and presents the result.

pub mod canvas;
pub mod geom;
pub mod loader;
pub mod resolve;
