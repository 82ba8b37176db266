//! Reading the route metadata from the attribute's options.
use vstd::prelude::*;

use crate::error::RpcError;
use crate::model::{AttributeOption, TypeExpr};

verus! {

/// The route of a handler: its HTTP method, its path template and the
/// return type that its stub is to decode, where that is given.
pub struct RpcAttribute {
    /// `get`, `post`, `put`, `delete` or `patch`.
    pub method: String,
    /// The path template, with `:name` segments for captures.
    pub path: String,
    pub return_override: Option<TypeExpr>,
}

/// What one option says.
pub ghost enum OptionMeaning {
    Method { method: String, path: String },
    Returns { ty: TypeExpr },
}

/// The route metadata as a value of the model.
pub ghost struct RouteMetadata {
    pub method: String,
    pub path: String,
    pub return_override: Option<TypeExpr>,
}

impl View for RpcAttribute {
    type V = RouteMetadata;

    open spec fn view(&self) -> RouteMetadata {
        RouteMetadata { method: self.method, path: self.path, return_override: self.return_override }
    }
}

pub open spec fn is_method_name(name: Seq<char>) -> bool {
    name == "get"@ || name == "post"@ || name == "put"@ || name == "delete"@ || name == "patch"@
}

/// What the option `o`, at `index` in the list, says.
pub open spec fn option_meaning(o: AttributeOption, index: usize) -> Result<OptionMeaning, RpcError> {
    if is_method_name(o.name@) {
        match o.literal {
            Some(path) => Ok(OptionMeaning::Method { method: o.name, path }),
            None => Err(RpcError::InvalidOptionValue { index }),
        }
    } else if o.name@ == "returns"@ {
        match o.ty {
            Some(ty) => Ok(OptionMeaning::Returns { ty }),
            None => Err(RpcError::InvalidOptionValue { index }),
        }
    } else {
        Err(RpcError::UnexpectedOption { index })
    }
}

/// What all options say, or the error of the first that says nothing.
pub open spec fn option_meanings(opts: Seq<AttributeOption>) -> Result<Seq<OptionMeaning>, RpcError>
    decreases opts.len(),
{
    if opts.len() == 0 {
        Ok(seq![])
    } else {
        match option_meanings(opts.drop_last()) {
            Err(e) => Err(e),
            Ok(ms) => match option_meaning(opts.last(), (opts.len() - 1) as usize) {
                Err(e) => Err(e),
                Ok(m) => Ok(ms.push(m)),
            },
        }
    }
}

/// The first method option.
pub open spec fn first_method(ms: Seq<OptionMeaning>) -> Option<(String, String)>
    decreases ms.len(),
{
    if ms.len() == 0 {
        None
    } else {
        match first_method(ms.drop_last()) {
            Some(m) => Some(m),
            None => match ms.last() {
                OptionMeaning::Method { method, path } => Some((method, path)),
                _ => None,
            },
        }
    }
}

/// The first `returns` option.
pub open spec fn first_return(ms: Seq<OptionMeaning>) -> Option<TypeExpr>
    decreases ms.len(),
{
    if ms.len() == 0 {
        None
    } else {
        match first_return(ms.drop_last()) {
            Some(t) => Some(t),
            None => match ms.last() {
                OptionMeaning::Returns { ty } => Some(ty),
                _ => None,
            },
        }
    }
}

/// The route metadata that the options `opts` give.
pub open spec fn attribute_of(opts: Seq<AttributeOption>) -> Result<RouteMetadata, RpcError> {
    match option_meanings(opts) {
        Err(e) => Err(e),
        Ok(ms) => match first_method(ms) {
            None => Err(RpcError::MissingMethod),
            Some((method, path)) => Ok(
                RouteMetadata { method, path, return_override: first_return(ms) },
            ),
        },
    }
}

fn name_is(o: &AttributeOption, lit: &str) -> (r: bool)
    ensures
        r == (o.name@ == lit@),
{
    let l = String::from_str(lit);
    o.name.eq(&l)
}

/// An error in the first `n` options is the error of all of them.
proof fn lemma_meanings_error_extends(opts: Seq<AttributeOption>, n: int)
    requires
        0 <= n <= opts.len(),
        option_meanings(opts.subrange(0, n)) is Err,
    ensures
        option_meanings(opts) == option_meanings(opts.subrange(0, n)),
    decreases opts.len() - n,
{
    if n < opts.len() {
        assert(opts.subrange(0, n + 1).drop_last() =~= opts.subrange(0, n));
        lemma_meanings_error_extends(opts, n + 1);
    } else {
        assert(opts.subrange(0, n) =~= opts);
    }
}

impl RpcAttribute {
    /// Reads the options in order. Each must be a method with a string
    /// literal or `returns` with a type; the first method and the first
    /// `returns` count, and a method is required.
    pub fn parse(options: Vec<AttributeOption>) -> (r: Result<RpcAttribute, RpcError>)
        ensures
            r matches Ok(a) ==> attribute_of(options@) == Ok::<RouteMetadata, RpcError>(a@),
            r matches Err(e) ==> attribute_of(options@) == Err::<RouteMetadata, RpcError>(e),
    {
        let ghost given = options@;
        let n = options.len();
        let mut rest = options;
        let mut method: Option<(String, String)> = None;
        let mut return_override: Option<TypeExpr> = None;
        let ghost mut ms: Seq<OptionMeaning> = seq![];
        let mut i: usize = 0;
        while rest.len() > 0
            invariant
                given == options@,
                given.len() == n,
                i + rest@.len() == given.len(),
                rest@ == given.subrange(i as int, given.len() as int),
                option_meanings(given.subrange(0, i as int)) == Ok::<Seq<OptionMeaning>, RpcError>(ms),
                first_method(ms) == method,
                first_return(ms) == return_override,
            decreases rest@.len(),
        {
            proof {
                reveal_strlit("get");
                reveal_strlit("post");
                reveal_strlit("put");
                reveal_strlit("delete");
                reveal_strlit("patch");
                reveal_strlit("returns");
            }
            let o = rest.remove(0);
            proof {
                assert(given.subrange(0, i + 1).drop_last() =~= given.subrange(0, i as int));
                assert(given.subrange(0, i + 1).last() == o);
            }
            let is_method = name_is(&o, "get") || name_is(&o, "post") || name_is(&o, "put")
                || name_is(&o, "delete") || name_is(&o, "patch");
            let is_returns = name_is(&o, "returns");
            let AttributeOption { name, literal, ty } = o;
            if is_method {
                match literal {
                    Some(path) => {
                        proof {
                            let m = OptionMeaning::Method { method: name, path };
                            assert(ms.push(m).drop_last() =~= ms);
                            ms = ms.push(m);
                        }
                        if method.is_none() {
                            method = Some((name, path));
                        }
                    },
                    None => {
                        proof {
                            lemma_meanings_error_extends(given, i as int + 1);
                        }
                        return Err(RpcError::InvalidOptionValue { index: i });
                    },
                }
            } else if is_returns {
                match ty {
                    Some(ty) => {
                        proof {
                            let m = OptionMeaning::Returns { ty };
                            assert(ms.push(m).drop_last() =~= ms);
                            ms = ms.push(m);
                        }
                        if return_override.is_none() {
                            return_override = Some(ty);
                        }
                    },
                    None => {
                        proof {
                            lemma_meanings_error_extends(given, i as int + 1);
                        }
                        return Err(RpcError::InvalidOptionValue { index: i });
                    },
                }
            } else {
                proof {
                    lemma_meanings_error_extends(given, i as int + 1);
                }
                return Err(RpcError::UnexpectedOption { index: i });
            }
            i = i + 1;
        }
        proof {
            assert(given.subrange(0, i as int) =~= given);
        }
        match method {
            Some((method, path)) => Ok(RpcAttribute { method, path, return_override }),
            None => Err(RpcError::MissingMethod),
        }
    }
}

} // verus!
