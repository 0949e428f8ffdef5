//! A reverse-mode automatic-differentiation engine over scalar values.
//!
//! Expressions are composed into a tree of [`value::Value`] nodes; a single
//! backward traversal then writes the partial derivative of the root into
//! every node, and an update pass performs one step of gradient descent.
//!
//! Scalars are carried as opaque 64-bit words, conventionally the IEEE-754
//! encoding of a double-precision number. The library never interprets those
//! words arithmetically: every arithmetic operation is supplied by the caller
//! as a function value, and each contract states exactly which supplied
//! operation was applied to which operands. Everything structural — which
//! local rule fires at each node, which operands feed it, where each result
//! is written, and that the traversal terminates — is verified.

pub mod engine;
pub mod laws;
pub mod export;
pub mod render;
pub mod value;
