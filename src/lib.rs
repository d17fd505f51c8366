//! syron: simple feed-forward neural networks.
//!
//! The verified part of the library decides the structure of a network: how
//! many weight matrices it has and of what shape, which inputs it accepts, the
//! shape of every layer of a forward pass, and the schedule of a training step
//! (which layer each delta comes from, which weight each update goes to).
pub mod nn;
pub mod shape;
