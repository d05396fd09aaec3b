//! The decisions behind the `#[strategy]` attribute of a command-line toolkit:
//! which function signatures it accepts, what it reports for the others, and the
//! names of the items it generates for an accepted strategy function.
//!
//! - `naming`: the PascalCase conversion of function names.
//! - `signature`: a plain-value shape of function signatures and types, and the
//!   structural type matches the attribute makes on it.
//! - `strategy`: the attribute's rule, its rejections, and the generated names.

pub mod naming;
pub mod signature;
pub mod strategy;
