//! Laws of generation, stated over the model and proved.
use vstd::prelude::*;

use crate::argument::{argument_role, pattern_names, type_role, wrapper_arg, ParamRole, TypeRole};
use crate::attr::{attribute_of, RouteMetadata};
use crate::codegen::{
    body_expr, decoded_type, extractor, format_text, output_text, query_name, request_target, route_format,
    rpc_plan, rpc_produces, stub_params, stub_return, target_expr, template_captures,
};
use crate::error::{ArgumentError, RpcError};
use crate::model::{AttributeOption, Declaration, FnArg, Pattern, TypeExpr};
use crate::signature::{add_role, empty_slots, fold_roles, roles_of, signature_of, SignatureModel};
use crate::text::{literal_for, plain_literal_text, views};

verus! {

/// The roles of a single parameter.
proof fn lemma_roles_of_one(a: FnArg)
    ensures
        roles_of(seq![a]) == match argument_role(a) {
            Ok(r) => Ok(seq![r]),
            Err(e) => Err::<Seq<ParamRole>, RpcError>(RpcError::Argument { param: 0, error: e }),
        },
{
    assert(seq![a].drop_last() =~= Seq::<FnArg>::empty());
    assert(roles_of(Seq::<FnArg>::empty()) == Ok::<Seq<ParamRole>, RpcError>(seq![]));
    assert(seq![a].last() == a);
    assert(Seq::<ParamRole>::empty().push(argument_role(a)->Ok_0) =~= seq![argument_role(a)->Ok_0]);
}

proof fn lemma_fold_one(r: ParamRole)
    ensures
        fold_roles(seq![r]) == add_role(empty_slots(), r),
{
    assert(seq![r].drop_last() =~= Seq::<ParamRole>::empty());
    assert(fold_roles(Seq::<ParamRole>::empty()) == empty_slots());
    assert(seq![r].last() == r);
}

/// A handler without parameters that returns text gets a stub that takes
/// no argument, sends no body and reads the response as text.
pub proof fn law_plain_text_handler(options: Seq<AttributeOption>, handler: Declaration, ret: TypeExpr)
    requires
        handler.inputs@.len() == 0,
        handler.output == Some(ret),
        type_role(ret) is Body,
        attribute_of(options) is Ok,
        attribute_of(options)->Ok_0.return_override is None,
    ensures
        signature_of(handler.name, handler.inputs@, handler.output) matches Ok(s) && stub_params(
            s.slots,
        ).len() == 0 && body_expr(s.slots).len() == 0 && decoded_type(s.ret, None) is None
            && extractor(decoded_type(s.ret, None)) == ".text()"@ && stub_return(
            decoded_type(s.ret, None),
        ) == "String"@,
        rpc_plan(options, handler) is Ok,
{
    let s = signature_of(handler.name, handler.inputs@, handler.output)->Ok_0;
    assert(stub_params(s.slots) =~= Seq::<Seq<char>>::empty());
}

/// Where the handler returns `Json<T>` and no override is given, the stub
/// returns `T`, decoded as JSON.
pub proof fn law_json_return(handler: Declaration, ret: TypeExpr, inner: TypeExpr)
    requires
        handler.output == Some(ret),
        wrapper_arg(ret, "Json"@) == Some(inner),
        signature_of(handler.name, handler.inputs@, handler.output) is Ok,
    ensures
        signature_of(handler.name, handler.inputs@, handler.output) matches Ok(s) && decoded_type(
            s.ret,
            None,
        ) == Some(inner.text@) && extractor(decoded_type(s.ret, None)) == ".json()"@
            && stub_return(decoded_type(s.ret, None)) == inner.text@,
{
}

/// An override `returns(O)`, where `O` is no `Json<T>`, makes the stub
/// return `O` decoded as JSON, whatever the handler declares.
pub proof fn law_return_override(ret: TypeRole, o: TypeExpr)
    requires
        wrapper_arg(o, "Json"@) is None,
    ensures
        decoded_type(ret, Some(o)) == Some(o.text@),
        extractor(decoded_type(ret, Some(o))) == ".json()"@,
        stub_return(decoded_type(ret, Some(o))) == o.text@,
{
}

/// A handler whose one parameter is a path capture binding `names` to
/// `types`, on a template whose captures are those names in order, gets a
/// stub that takes each name with its type in that order and interpolates
/// them into the URL in that order, whatever literal is written for the
/// URL's format text.
pub proof fn law_path_captures(
    options: Seq<AttributeOption>,
    handler: Declaration,
    pat: Pattern,
    ty: TypeExpr,
    names: Seq<String>,
    types: Seq<TypeExpr>,
    literal: Seq<char>,
)
    requires
        handler.inputs@ == seq![FnArg::Typed { pat, ty }],
        pattern_names(pat) == Ok::<Seq<String>, ArgumentError>(names),
        type_role(ty) == TypeRole::Path(types),
        names.len() == types.len(),
        handler.output is Some,
        attribute_of(options) is Ok,
        template_captures(attribute_of(options)->Ok_0.path@) == views(names),
    ensures
        signature_of(handler.name, handler.inputs@, handler.output) matches Ok(s) && stub_params(
            s.slots,
        ) == Seq::new(names.len(), |i: int| names[i]@ + ": "@ + types[i].text@) && request_target(
            attribute_of(options)->Ok_0.path@,
            query_name(s.slots),
            literal,
        ) == target_expr(literal, views(names), None),
{
    let a = FnArg::Typed { pat, ty };
    lemma_roles_of_one(a);
    let role = argument_role(a)->Ok_0;
    lemma_fold_one(role);
    let s = signature_of(handler.name, handler.inputs@, handler.output)->Ok_0;
    assert(Seq::<(String, TypeExpr)>::empty() + role->captures =~= role->captures);
    assert(stub_params(s.slots) =~= Seq::new(names.len(), |i: int| names[i]@ + ": "@ + types[i].text@));
}

/// With both a query and a JSON body, the query goes into the URL and the
/// JSON body into the body, each under its own name.
pub proof fn law_query_and_json_apart(
    options: Seq<AttributeOption>,
    handler: Declaration,
    qn: String,
    qt: TypeExpr,
    jn: String,
    jt: TypeExpr,
    literal: Seq<char>,
)
    requires
        signature_of(handler.name, handler.inputs@, handler.output) is Ok,
        signature_of(handler.name, handler.inputs@, handler.output)->Ok_0.slots.query == Some((qn, qt)),
        signature_of(handler.name, handler.inputs@, handler.output)->Ok_0.slots.json == Some((jn, jt)),
        attribute_of(options) is Ok,
    ensures
        signature_of(handler.name, handler.inputs@, handler.output) matches Ok(s) && body_expr(s.slots)
            == ".body(::serde_json::to_string("@ + jn@ + ").unwrap())"@ && request_target(
            attribute_of(options)->Ok_0.path@,
            query_name(s.slots),
            literal,
        ) == target_expr(literal, template_captures(attribute_of(options)->Ok_0.path@), Some(qn@))
            && route_format(s, attribute_of(options)->Ok_0) == format_text(
            attribute_of(options)->Ok_0.path@,
            true,
        ),
{
}

/// Where the URL's format text needs no escape, generation is a function
/// of its input: two outputs for the same options and declaration are equal.
pub proof fn law_deterministic(
    options: Seq<AttributeOption>,
    handler: Declaration,
    out1: Seq<char>,
    out2: Seq<char>,
)
    requires
        rpc_plan(options, handler) is Ok,
        plain_literal_text(
            route_format(rpc_plan(options, handler)->Ok_0.0, rpc_plan(options, handler)->Ok_0.1),
        ),
        rpc_produces(options, handler, out1),
        rpc_produces(options, handler, out2),
    ensures
        out1 == out2,
{
    let (s, m) = rpc_plan(options, handler)->Ok_0;
    let f = route_format(s, m);
    let l1 = choose|l: Seq<char>|
        literal_for(f, l) && out1 == #[trigger] output_text(s, m, handler.vis@, handler.text@, l);
    let l2 = choose|l: Seq<char>|
        literal_for(f, l) && out2 == #[trigger] output_text(s, m, handler.vis@, handler.text@, l);
    assert(l1 == l2);
}

/// A path parameter whose pattern binds another number of names than its
/// tuple type has elements fails generation.
pub proof fn law_path_arity_mismatch(
    options: Seq<AttributeOption>,
    handler: Declaration,
    pat: Pattern,
    ty: TypeExpr,
    names: Seq<String>,
    types: Seq<TypeExpr>,
)
    requires
        handler.inputs@ == seq![FnArg::Typed { pat, ty }],
        pattern_names(pat) == Ok::<Seq<String>, ArgumentError>(names),
        type_role(ty) == TypeRole::Path(types),
        names.len() != types.len(),
    ensures
        rpc_plan(options, handler) == Err::<(SignatureModel, RouteMetadata), RpcError>(
            RpcError::Argument { param: 0, error: ArgumentError::PathNotDestructured },
        ),
{
    lemma_roles_of_one(FnArg::Typed { pat, ty });
}

} // verus!
