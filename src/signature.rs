//! Folding the classified parameters of a handler into the slots of its
//! call stub.
use vstd::prelude::*;

use crate::argument::{argument_role, result_view, type_role, Argument, ArgumentType, ParamRole, TypeRole};
use crate::error::RpcError;
use crate::model::{FnArg, TypeExpr};

verus! {

/// What a handler's signature says of its stub.
pub struct RpcSignature {
    /// The handler's identifier.
    pub name: String,
    /// Path captures, in order, over all path parameters.
    pub path: Vec<(String, TypeExpr)>,
    /// The query parameter and its type.
    pub query: Option<(String, TypeExpr)>,
    /// The text body parameter.
    pub body: Option<String>,
    /// The JSON body parameter and its type.
    pub json: Option<(String, TypeExpr)>,
    /// The role of the declared return type.
    pub return_type: ArgumentType,
}

/// The slots that the parameters fill.
pub ghost struct Slots {
    pub path: Seq<(String, TypeExpr)>,
    pub query: Option<(String, TypeExpr)>,
    pub body: Option<String>,
    pub json: Option<(String, TypeExpr)>,
}

/// A signature as a value of the model.
pub ghost struct SignatureModel {
    pub name: String,
    pub slots: Slots,
    pub ret: TypeRole,
}

impl View for RpcSignature {
    type V = SignatureModel;

    open spec fn view(&self) -> SignatureModel {
        SignatureModel {
            name: self.name,
            slots: Slots { path: self.path@, query: self.query, body: self.body, json: self.json },
            ret: self.return_type@,
        }
    }
}

pub open spec fn empty_slots() -> Slots {
    Slots { path: seq![], query: None, body: None, json: None }
}

/// Adds one parameter's role to the slots: captures accumulate, and a later
/// query, text body or JSON body replaces an earlier one.
pub open spec fn add_role(s: Slots, role: ParamRole) -> Slots {
    match role {
        ParamRole::Json { name, inner } => Slots { json: Some((name, inner)), ..s },
        ParamRole::Query { name, inner } => Slots { query: Some((name, inner)), ..s },
        ParamRole::Path { captures } => Slots { path: s.path + captures, ..s },
        ParamRole::Body { name } => Slots { body: Some(name), ..s },
        ParamRole::Ignored => s,
    }
}

/// The slots filled by `roles`, taken in order.
pub open spec fn fold_roles(roles: Seq<ParamRole>) -> Slots
    decreases roles.len(),
{
    if roles.len() == 0 {
        empty_slots()
    } else {
        add_role(fold_roles(roles.drop_last()), roles.last())
    }
}

/// The roles of all parameters, or the error of the first that has none.
pub open spec fn roles_of(args: Seq<FnArg>) -> Result<Seq<ParamRole>, RpcError>
    decreases args.len(),
{
    if args.len() == 0 {
        Ok(seq![])
    } else {
        match roles_of(args.drop_last()) {
            Err(e) => Err(e),
            Ok(roles) => match argument_role(args.last()) {
                Err(e) => Err(RpcError::Argument { param: (args.len() - 1) as usize, error: e }),
                Ok(role) => Ok(roles.push(role)),
            },
        }
    }
}

/// A request has one body: a JSON body drops a text body.
pub open spec fn single_body(s: Slots) -> Slots {
    if s.json is Some {
        Slots { body: None, ..s }
    } else {
        s
    }
}

/// The signature of a handler named `name` with parameters `inputs` and
/// declared return type `output`.
pub open spec fn signature_of(name: String, inputs: Seq<FnArg>, output: Option<TypeExpr>) -> Result<
    SignatureModel,
    RpcError,
> {
    match roles_of(inputs) {
        Err(e) => Err(e),
        Ok(roles) => match output {
            None => Err(RpcError::MissingReturn),
            Some(t) => Ok(
                SignatureModel { name, slots: single_body(fold_roles(roles)), ret: type_role(t) },
            ),
        },
    }
}

impl RpcSignature {
    /// Classifies every parameter in order and folds the roles into slots.
    /// The first parameter that cannot be classified is the error; a handler
    /// without a return type is one too.
    pub fn from_parts(name: String, params: Vec<FnArg>, output: Option<TypeExpr>) -> (r: Result<
        RpcSignature,
        RpcError,
    >)
        ensures
            result_view(r) == signature_of(name, params@, output),
    {
        let ghost given = params@;
        let n = params.len();
        let mut inputs = params;
        let mut path: Vec<(String, TypeExpr)> = Vec::new();
        let mut query: Option<(String, TypeExpr)> = None;
        let mut body: Option<String> = None;
        let mut json: Option<(String, TypeExpr)> = None;
        let ghost mut roles: Seq<ParamRole> = seq![];
        let mut i: usize = 0;
        while inputs.len() > 0
            invariant
                given == params@,
                given.len() == n,
                i + inputs@.len() == given.len(),
                inputs@ == given.subrange(i as int, given.len() as int),
                roles_of(given.subrange(0, i as int)) == Ok::<Seq<ParamRole>, RpcError>(roles),
                fold_roles(roles) == (Slots { path: path@, query, body, json }),
            decreases inputs@.len(),
        {
            let arg = inputs.remove(0);
            proof {
                assert(given.subrange(0, i + 1).drop_last() =~= given.subrange(0, i as int));
                assert(given.subrange(0, i + 1).last() == arg);
            }
            match Argument::classify(arg) {
                Err(error) => {
                    proof {
                        assert(roles_of(given.subrange(0, i + 1)) == Err::<Seq<ParamRole>, RpcError>(
                            RpcError::Argument { param: i, error },
                        ));
                        lemma_roles_error_extends(given, i as int + 1);
                    }
                    return Err(RpcError::Argument { param: i, error });
                },
                Ok(role) => {
                    proof {
                        assert(roles.push(role@).drop_last() =~= roles);
                        roles = roles.push(role@);
                    }
                    match role {
                        Argument::Json { name, inner_type } => {
                            json = Some((name, inner_type));
                        },
                        Argument::Query { name, inner_type } => {
                            query = Some((name, inner_type));
                        },
                        Argument::Path { inner_types } => {
                            let mut captures = inner_types;
                            path.append(&mut captures);
                        },
                        Argument::Body { name } => {
                            body = Some(name);
                        },
                        Argument::Ignored => {},
                    }
                },
            }
            i = i + 1;
        }
        proof {
            assert(given.subrange(0, i as int) =~= given);
        }
        let return_type = match output {
            Some(t) => ArgumentType::from_type(t),
            None => {
                return Err(RpcError::MissingReturn);
            },
        };
        if json.is_some() {
            body = None;
        }
        Ok(RpcSignature { name, path, query, body, json, return_type })
    }
}

/// An error in the first `n` parameters is the error of all of them.
proof fn lemma_roles_error_extends(args: Seq<FnArg>, n: int)
    requires
        0 <= n <= args.len(),
        roles_of(args.subrange(0, n)) is Err,
    ensures
        roles_of(args) == roles_of(args.subrange(0, n)),
    decreases args.len() - n,
{
    if n < args.len() {
        assert(args.subrange(0, n + 1).drop_last() =~= args.subrange(0, n));
        lemma_roles_error_extends(args, n + 1);
    } else {
        assert(args.subrange(0, n) =~= args);
    }
}

} // verus!
