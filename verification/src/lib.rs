//! Verified core of an HDL toolkit: the intermediate-form data model,
//! the textual rendering of register-transfer opcodes, the check that
//! type inference bound every node of a kernel, the translation of kernel
//! syntax into calls of the AST builder, the text of a derived
//! `Synchronous` implementation, and bit vectors and signals in clock
//! domains.
pub mod text;
pub mod types;
pub mod rhif;
pub mod rtl;
pub mod syntax;
pub mod builder;
pub mod kernel;
pub mod support;
pub mod kernel_laws;
pub mod ast;
pub mod unify;
pub mod check_inference;
pub mod synchronous;
pub mod timed;
pub mod bits;
pub mod strobe;
