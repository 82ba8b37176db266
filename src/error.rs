//! Why a handler cannot be turned into a stub.
use vstd::prelude::*;

verus! {

/// What is wrong with one parameter.
#[derive(Clone, Copy, Debug, PartialEq, Eq, Structural)]
pub enum ArgumentError {
    /// A destructuring pattern holds something else than plain identifiers.
    NonIdentInDestructure,
    /// The pattern is neither an identifier nor a tuple-struct destructuring.
    UnsupportedPattern,
    /// A body or query parameter is destructured into several names.
    ExpectedSingleName,
    /// A path parameter binds another number of names than its tuple has types.
    PathNotDestructured,
}

/// A fatal error of generation.
#[derive(Clone, Copy, Debug, PartialEq, Eq, Structural)]
pub enum RpcError {
    /// No method option (`get`, `post`, `put`, `delete`, `patch`) was given.
    MissingMethod,
    /// The option at `index` has an unknown name.
    UnexpectedOption { index: usize },
    /// The content of the option at `index` is not what its name asks for.
    InvalidOptionValue { index: usize },
    /// The handler declares no return type.
    MissingReturn,
    /// The parameter at `param` cannot be classified.
    Argument { param: usize, error: ArgumentError },
}

impl ArgumentError {
    /// The text of the diagnostic.
    pub fn message(&self) -> (r: &'static str)
        ensures
            r@ == self.message_text(),
    {
        match self {
            ArgumentError::NonIdentInDestructure => "Expected tuple struct pattern to contain only idents",
            ArgumentError::UnsupportedPattern => "Expected plain ident or tuple struct for argument name",
            ArgumentError::ExpectedSingleName => "Expected single name, found destructured tuple",
            ArgumentError::PathNotDestructured => "Path tuples must be destructured",
        }
    }
}

impl ArgumentError {
    pub open spec fn message_text(self) -> Seq<char> {
        match self {
            ArgumentError::NonIdentInDestructure => "Expected tuple struct pattern to contain only idents"@,
            ArgumentError::UnsupportedPattern => "Expected plain ident or tuple struct for argument name"@,
            ArgumentError::ExpectedSingleName => "Expected single name, found destructured tuple"@,
            ArgumentError::PathNotDestructured => "Path tuples must be destructured"@,
        }
    }
}

impl RpcError {
    /// The text of the diagnostic; an argument's error speaks for itself.
    pub fn message(&self) -> (r: &'static str)
        ensures
            *self is MissingMethod ==> r@ == "Missing method"@,
            *self is UnexpectedOption ==> r@ == "Unexpected option"@,
            *self is InvalidOptionValue ==> r@ == "Invalid option value"@,
            *self is MissingReturn ==> r@ == "Rpc functions must have a return"@,
            *self matches RpcError::Argument { error, .. } ==> r@ == error.message_text(),
    {
        match self {
            RpcError::MissingMethod => "Missing method",
            RpcError::UnexpectedOption { .. } => "Unexpected option",
            RpcError::InvalidOptionValue { .. } => "Invalid option value",
            RpcError::MissingReturn => "Rpc functions must have a return",
            RpcError::Argument { error, .. } => error.message(),
        }
    }
}

} // verus!
