//! A provider-adapter dispatcher: one abstract "generate text from a prompt"
//! request is routed to one of several third-party text-generation services,
//! each with its own wire format, and every outcome is normalized into a
//! single result envelope.

pub mod dispatch;
pub mod envelope;
pub mod httpc;
pub mod json;
pub mod strategy;
pub mod text;
