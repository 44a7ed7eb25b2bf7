//! Typed processing nodes and their composition into chains.
//!
//! A node consumes an input of one type and produces an output of another,
//! possibly changing its own state. Nodes compose sequentially with
//! [`Pipe::pipe`] and side by side as tuples, whose slots run one after
//! another, and every composite is again a node.

mod counter;
mod fan_out;
mod laws;
mod node;

pub use counter::Counter;
pub use laws::{
    deterministic, lemma_callable_node, lemma_chain_runs_agree, lemma_chain_stages,
    lemma_counter_in_chain, lemma_pipe_associative, lemma_pipe_associative_runs,
};
pub use node::{Graph, GraphNode, Pipe};
