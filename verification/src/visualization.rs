//! The visualization container of the graph editor: which visualization it
//! shows and where, and how it reacts to its inputs.

pub mod container;
pub mod container_laws;
pub mod container_model;
pub mod definition;
