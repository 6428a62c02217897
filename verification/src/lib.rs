//! Small verified routines that illustrate everyday programming concepts:
//! constants, functions with and without results, branching and loops.
//!
//! Nothing here writes to the console. A routine that announces something
//! returns its lines as text, and each contract states that text exactly.

pub mod branches;
pub mod constants;
pub mod functions;
pub mod loops;
pub mod text;
