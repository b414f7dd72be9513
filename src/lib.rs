//! Detection of methods that cannot return without recursing into themselves.
//!
//! The host front end hands the rule a typed, resolved view of each function
//! (see [`hir`]); the rule decides, per function, whether its single exit is a
//! call back into the operation being defined.

pub mod sym;
pub mod hir;
pub mod exits;
pub mod registry;
pub mod diagnostic;
pub mod operator;
pub mod factory;
pub mod rule;
pub mod lemmas;

pub use diagnostic::Diagnostic;
pub use rule::UnconditionalRecursion;

