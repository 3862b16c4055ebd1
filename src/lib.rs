//! Expansion of module-level assembly invocations.
//!
//! A `global_asm!("...")` invocation is turned into a directive item that
//! carries the literal assembly text, to be emitted verbatim by a code
//! generator later. The host compiler's parser and expander are kept outside:
//! the library receives what they produced as plain values and decides the
//! outcome, the diagnostics and the item.
pub mod span;
pub mod diagnostic;
pub mod ast;
pub mod expand;
pub mod receivers;
