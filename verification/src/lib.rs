//! Command lines for the sbt build tool, and the decision logic of the graph
//! editor's visualization container.

pub mod sbt;
pub mod visualization;
