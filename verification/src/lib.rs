//! A windowing- and driver-independent core for a single-triangle renderer.
//!
//! The crate decides *what* has to happen to bring up a presentation surface,
//! to describe a render pipeline, to upload static geometry and to draw one
//! frame; the host performs the graphics and windowing calls and reports
//! their outcome back.  Every decision is a function with a proved contract,
//! stated over a mathematical model of the state it works on.
//!
//! * [`context`]: start-up, from a window size to a device context;
//! * [`pipeline`]: the render pipeline and its fixed state;
//! * [`mesh`]: vertex and index data, uploaded once;
//! * [`frame`]: the commands of one frame;
//! * [`state`]: the renderer that holds all of these;
//! * [`host`]: the event loop's decisions;
//! * [`error`]: what can go wrong, and how badly.

pub mod context;
pub mod error;
pub mod frame;
pub mod host;
pub mod mesh;
pub mod pipeline;
pub mod state;
