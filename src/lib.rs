//! Tool-calling layer: descriptors advertised to a model, decoding of the
//! tool-call payloads that a model sends back, and dispatch to a tool.

pub mod descriptor;
pub mod dispatch;
pub mod json;
pub mod normalize;
