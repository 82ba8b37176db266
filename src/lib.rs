//! Derives client call stubs from the declarations of HTTP handlers.
//!
//! A handler is described by a small typed tree ([`model::Declaration`]) and
//! its route by a list of attribute options ([`model::AttributeOption`]).
//! From those the library classifies every parameter, folds the parameters
//! into a call signature, and emits the source text of the handler gated to
//! the server together with a client stub that issues the matching request.
pub mod model;
pub mod error;
pub mod argument;
pub mod attr;
pub mod codegen;
pub mod laws;
pub mod signature;
pub mod text;

pub use argument::{Argument, ArgumentName, ArgumentType};
pub use attr::RpcAttribute;
pub use codegen::{compile_template, rpc, target_expression};
pub use error::{ArgumentError, RpcError};
pub use model::{AttributeOption, Declaration, FnArg, GenericArg, Pattern, TypeExpr, TypeKind};
pub use signature::RpcSignature;
