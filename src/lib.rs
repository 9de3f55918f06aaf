//! Source generation for RPC service scaffolding: identifier and route
//! derivation, documentation propagation, and synthesis of a service stub and
//! of one unary handler per method.

pub mod emit;
pub mod model;
pub mod naming;
pub mod synth;
