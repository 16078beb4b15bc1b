//! A minimal feedforward neural-network evaluator.
//!
//! A [`Configuration`] fixes the topology: input width, number of hidden
//! layers, hidden-layer width, and output width. [`Network::new`] builds the
//! layered structure with every weight at one and a count-based normalizer
//! per neuron, and [`Network::infer`] propagates a signal vector through the
//! layers in order, producing the output vector.
//!
//! The network is generic over its scalar domain: any type implementing
//! [`Signal`] supplies the arithmetic and the logistic sigmoid, and every
//! contract states the result as a mathematical function of the weights and
//! the input over that domain.

pub mod network;
pub mod signal;

pub use network::{Configuration, Layer, Network, Neuron};
pub use signal::{Activation, Signal};
