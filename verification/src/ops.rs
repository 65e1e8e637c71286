//! What can be done with containers and expression nodes: combining them
//! with operators, and assigning an expression into a destination.

pub mod add;
pub mod assign;
pub mod mul;
