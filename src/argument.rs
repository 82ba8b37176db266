//! Classification of one declared parameter into the role it plays when the
//! request is built.
use vstd::prelude::*;

use crate::error::ArgumentError;
use crate::model::{FnArg, GenericArg, Pattern, TypeExpr, TypeKind};

verus! {

/// What a parameter's type says of its role.
pub enum ArgumentType {
    /// `Json<T>`: the request body, JSON encoded; holds `T`.
    Json(TypeExpr),
    /// `Query<T>`: the query string; holds `T`.
    Query(TypeExpr),
    /// `Path<T>` or `Path<(A, B, ..)>`: path captures; holds one type per capture.
    Path(Vec<TypeExpr>),
    /// `String` or `str`: a text body.
    Body,
    /// Anything else: state that only the server has.
    Ignored,
}

/// The names a parameter's pattern binds.
pub enum ArgumentName {
    Single(String),
    Multiple(Vec<String>),
}

/// The role of one parameter, with the names it binds.
pub enum Argument {
    Json { name: String, inner_type: TypeExpr },
    Query { name: String, inner_type: TypeExpr },
    Path { inner_types: Vec<(String, TypeExpr)> },
    Body { name: String },
    Ignored,
}

/// The role a type gives a parameter, as a value of the model.
pub ghost enum TypeRole {
    Json(TypeExpr),
    Query(TypeExpr),
    Path(Seq<TypeExpr>),
    Body,
    Ignored,
}

/// The role of a parameter with its names, as a value of the model.
pub ghost enum ParamRole {
    Json { name: String, inner: TypeExpr },
    Query { name: String, inner: TypeExpr },
    Path { captures: Seq<(String, TypeExpr)> },
    Body { name: String },
    Ignored,
}

impl View for ArgumentType {
    type V = TypeRole;

    open spec fn view(&self) -> TypeRole {
        match self {
            ArgumentType::Json(t) => TypeRole::Json(*t),
            ArgumentType::Query(t) => TypeRole::Query(*t),
            ArgumentType::Path(ts) => TypeRole::Path(ts@),
            ArgumentType::Body => TypeRole::Body,
            ArgumentType::Ignored => TypeRole::Ignored,
        }
    }
}

impl View for ArgumentName {
    type V = Seq<String>;

    open spec fn view(&self) -> Seq<String> {
        match self {
            ArgumentName::Single(name) => seq![*name],
            ArgumentName::Multiple(names) => names@,
        }
    }
}

impl View for Argument {
    type V = ParamRole;

    open spec fn view(&self) -> ParamRole {
        match self {
            Argument::Json { name, inner_type } => ParamRole::Json { name: *name, inner: *inner_type },
            Argument::Query { name, inner_type } => ParamRole::Query { name: *name, inner: *inner_type },
            Argument::Path { inner_types } => ParamRole::Path { captures: inner_types@ },
            Argument::Body { name } => ParamRole::Body { name: *name },
            Argument::Ignored => ParamRole::Ignored,
        }
    }
}

// ---------------------------------------------------------------------------
// Types

/// The identifier of the last segment of a path type.
pub open spec fn path_ident(ty: TypeExpr) -> Option<Seq<char>> {
    match ty.kind {
        TypeKind::Path { ident, .. } => Some(ident@),
        _ => None,
    }
}

/// The one generic argument of a path type, where it has exactly one and
/// that one is a type.
pub open spec fn sole_type_arg(ty: TypeExpr) -> Option<TypeExpr> {
    match ty.kind {
        TypeKind::Path { args, .. } => if args@.len() == 1 && args@[0] is Type {
            Some(args@[0]->ty)
        } else {
            None
        },
        _ => None,
    }
}

/// `T` where `ty` is `wrapper<T>`.
pub open spec fn wrapper_arg(ty: TypeExpr, wrapper: Seq<char>) -> Option<TypeExpr> {
    if path_ident(ty) == Some(wrapper) {
        sole_type_arg(ty)
    } else {
        None
    }
}

/// A reference type with one level of `&` taken off; any other type as it is.
pub open spec fn unref(ty: TypeExpr) -> TypeExpr {
    match ty.kind {
        TypeKind::Reference { elem } => *elem,
        _ => ty,
    }
}

pub open spec fn is_text_type(ty: TypeExpr) -> bool {
    path_ident(ty) == Some("String"@) || path_ident(ty) == Some("str"@)
}

/// The elements of a tuple type; any other type alone.
pub open spec fn tuple_elems(ty: TypeExpr) -> Seq<TypeExpr> {
    match ty.kind {
        TypeKind::Tuple { elems } => elems@,
        _ => seq![ty],
    }
}

/// The role that the declared type `ty` gives a parameter.
pub open spec fn type_role(ty: TypeExpr) -> TypeRole {
    let t = unref(ty);
    if wrapper_arg(t, "Json"@) is Some {
        TypeRole::Json(wrapper_arg(t, "Json"@)->0)
    } else if wrapper_arg(t, "Query"@) is Some {
        TypeRole::Query(wrapper_arg(t, "Query"@)->0)
    } else if wrapper_arg(t, "Path"@) is Some {
        TypeRole::Path(tuple_elems(wrapper_arg(t, "Path"@)->0))
    } else if is_text_type(t) {
        TypeRole::Body
    } else {
        TypeRole::Ignored
    }
}

pub(crate) fn str_eq(s: &String, lit: &str) -> (r: bool)
    ensures
        r == (s@ == lit@),
{
    let l = String::from_str(lit);
    s.eq(&l)
}

fn ident_is(ty: &TypeExpr, name: &str) -> (r: bool)
    ensures
        r == (path_ident(*ty) == Some(name@)),
{
    match &ty.kind {
        TypeKind::Path { ident, .. } => str_eq(ident, name),
        _ => false,
    }
}

fn take_unref(ty: TypeExpr) -> (r: TypeExpr)
    ensures
        r == unref(ty),
{
    match ty {
        TypeExpr { kind: TypeKind::Reference { elem }, .. } => *elem,
        other => other,
    }
}

fn take_sole_type_arg(ty: TypeExpr) -> (r: Option<TypeExpr>)
    ensures
        r == sole_type_arg(ty),
{
    match ty.kind {
        TypeKind::Path { mut args, .. } => {
            if args.len() == 1 {
                match args.remove(0) {
                    GenericArg::Type { ty } => Some(ty),
                    GenericArg::Other => None,
                }
            } else {
                None
            }
        },
        _ => None,
    }
}

fn take_tuple_elems(ty: TypeExpr) -> (r: Vec<TypeExpr>)
    ensures
        r@ == tuple_elems(ty),
{
    match ty {
        TypeExpr { kind: TypeKind::Tuple { elems }, .. } => elems,
        other => {
            let mut v: Vec<TypeExpr> = Vec::new();
            v.push(other);
            proof {
                assert(v@ =~= seq![ty]);
            }
            v
        },
    }
}

impl ArgumentType {
    /// Classifies a declared type: one level of reference is looked through,
    /// then `Json<T>`, `Query<T>` and `Path<T>` with exactly one type argument
    /// name their role, `String` and `str` a text body, and anything else is
    /// ignored.
    pub fn from_type(ty: TypeExpr) -> (r: ArgumentType)
        ensures
            r@ == type_role(ty),
    {
        proof {
            reveal_strlit("Json");
            reveal_strlit("Query");
            reveal_strlit("Path");
            reveal_strlit("String");
            reveal_strlit("str");
            assert("Json"@[0] != "Query"@[0] && "Json"@[0] != "Path"@[0] && "Query"@[0] != "Path"@[0]);
            assert("Json"@[0] != "String"@[0] && "Query"@[0] != "String"@[0] && "Path"@[0] != "String"@[0]);
            assert("Json"@[0] != "str"@[0] && "Query"@[0] != "str"@[0] && "Path"@[0] != "str"@[0]);
        }
        let t = take_unref(ty);
        let is_json = ident_is(&t, "Json");
        let is_query = ident_is(&t, "Query");
        let is_path = ident_is(&t, "Path");
        let is_text = ident_is(&t, "String") || ident_is(&t, "str");
        if is_json || is_query || is_path {
            match take_sole_type_arg(t) {
                Some(inner) => {
                    if is_json {
                        ArgumentType::Json(inner)
                    } else if is_query {
                        ArgumentType::Query(inner)
                    } else {
                        ArgumentType::Path(take_tuple_elems(inner))
                    }
                },
                None => ArgumentType::Ignored,
            }
        } else if is_text {
            ArgumentType::Body
        } else {
            ArgumentType::Ignored
        }
    }
}

// ---------------------------------------------------------------------------
// Patterns

/// The patterns that name the captures of a tuple-struct pattern: those of
/// an inner tuple pattern where it comes first (`Path((a, b))`), else its own.
pub open spec fn destructured(elems: Seq<Pattern>) -> Seq<Pattern> {
    if elems.len() > 0 && elems[0] is Tuple {
        elems[0]->Tuple_elems@
    } else {
        elems
    }
}

pub open spec fn all_idents(ps: Seq<Pattern>) -> bool {
    forall|i: int| 0 <= i < ps.len() ==> #[trigger] ps[i] is Ident
}

pub open spec fn ident_strings(ps: Seq<Pattern>) -> Seq<String> {
    Seq::new(ps.len(), |i: int| ps[i]->name)
}

/// The names that the pattern `pat` binds, in order.
pub open spec fn pattern_names(pat: Pattern) -> Result<Seq<String>, ArgumentError> {
    match pat {
        Pattern::Ident { name } => Ok(seq![name]),
        Pattern::TupleStruct { elems } => {
            let ps = destructured(elems@);
            if all_idents(ps) {
                Ok(ident_strings(ps))
            } else {
                Err(ArgumentError::NonIdentInDestructure)
            }
        },
        _ => Err(ArgumentError::UnsupportedPattern),
    }
}

/// Sends an exec result to the model through `view`.
pub open spec fn result_view<T: View, E>(r: Result<T, E>) -> Result<T::V, E> {
    match r {
        Ok(v) => Ok(v@),
        Err(e) => Err(e),
    }
}

fn take_destructured(elems: Vec<Pattern>) -> (r: Vec<Pattern>)
    ensures
        r@ == destructured(elems@),
{
    let mut elems = elems;
    let first_is_tuple = elems.len() > 0 && matches!(elems[0], Pattern::Tuple { .. });
    if first_is_tuple {
        match elems.remove(0) {
            Pattern::Tuple { elems: inner } => inner,
            _ => elems,
        }
    } else {
        elems
    }
}

impl ArgumentName {
    /// The names bound by a parameter's pattern: a plain identifier gives
    /// one; a tuple-struct destructuring gives its identifiers in order,
    /// looking into a tuple pattern that comes first.
    pub fn from_pattern(pat: Pattern) -> (r: Result<ArgumentName, ArgumentError>)
        ensures
            result_view(r) == pattern_names(pat),
            r matches Ok(n) ==> (n is Single <==> n@.len() == 1),
    {
        match pat {
            Pattern::Ident { name } => Ok(ArgumentName::Single(name)),
            Pattern::TupleStruct { elems } => {
                let ghost given = elems@;
                let ps = take_destructured(elems);
                let mut names: Vec<String> = Vec::new();
                let mut i: usize = 0;
                while i < ps.len()
                    invariant
                        ps@ == destructured(given),
                        pat is TupleStruct && pat->TupleStruct_elems@ == given,
                        i <= ps@.len(),
                        all_idents(ps@.subrange(0, i as int)),
                        names@ == ident_strings(ps@.subrange(0, i as int)),
                    decreases ps@.len() - i,
                {
                    match &ps[i] {
                        Pattern::Ident { name } => {
                            names.push(name.clone());
                        },
                        _ => {
                            proof {
                                assert(!(ps@[i as int] is Ident));
                                assert(!all_idents(ps@));
                            }
                            return Err(ArgumentError::NonIdentInDestructure);
                        },
                    }
                    proof {
                        assert(ps@.subrange(0, i + 1).drop_last() =~= ps@.subrange(0, i as int));
                        assert(names@ =~= ident_strings(ps@.subrange(0, i + 1)));
                    }
                    i = i + 1;
                }
                proof {
                    assert(ps@.subrange(0, i as int) =~= ps@);
                }
                if names.len() == 1 {
                    let name = names.remove(0);
                    proof {
                        assert(seq![name] =~= ident_strings(ps@));
                    }
                    Ok(ArgumentName::Single(name))
                } else {
                    Ok(ArgumentName::Multiple(names))
                }
            },
            _ => Err(ArgumentError::UnsupportedPattern),
        }
    }

    /// The one name, or an error where the pattern was destructured into
    /// another number of names.
    pub fn single(self) -> (r: Result<String, ArgumentError>)
        ensures
            self is Single ==> r == Ok::<String, ArgumentError>(self@[0]),
            self is Multiple ==> r == Err::<String, ArgumentError>(ArgumentError::ExpectedSingleName),
    {
        match self {
            ArgumentName::Single(name) => Ok(name),
            ArgumentName::Multiple(_) => Err(ArgumentError::ExpectedSingleName),
        }
    }

    /// All names, in order.
    pub fn multiple(self) -> (r: Vec<String>)
        ensures
            r@ == self@,
    {
        match self {
            ArgumentName::Single(name) => {
                let mut v: Vec<String> = Vec::new();
                v.push(name);
                proof {
                    assert(v@ =~= seq![name]);
                }
                v
            },
            ArgumentName::Multiple(names) => names,
        }
    }
}

// ---------------------------------------------------------------------------
// Parameters

/// The names and the types of path captures, paired in order.
pub open spec fn zip_captures(names: Seq<String>, types: Seq<TypeExpr>) -> Seq<(String, TypeExpr)> {
    Seq::new(names.len(), |i: int| (names[i], types[i]))
}

/// The role of one declared parameter.
pub open spec fn argument_role(arg: FnArg) -> Result<ParamRole, ArgumentError> {
    match arg {
        FnArg::Receiver => Ok(ParamRole::Ignored),
        FnArg::Typed { pat, ty } => match pattern_names(pat) {
            Err(e) => Err(e),
            Ok(names) => match type_role(ty) {
                TypeRole::Json(inner) => if names.len() == 1 {
                    Ok(ParamRole::Json { name: names[0], inner })
                } else {
                    Err(ArgumentError::ExpectedSingleName)
                },
                TypeRole::Query(inner) => if names.len() == 1 {
                    Ok(ParamRole::Query { name: names[0], inner })
                } else {
                    Err(ArgumentError::ExpectedSingleName)
                },
                TypeRole::Path(types) => if names.len() == types.len() {
                    Ok(ParamRole::Path { captures: zip_captures(names, types) })
                } else {
                    Err(ArgumentError::PathNotDestructured)
                },
                TypeRole::Body => if names.len() == 1 {
                    Ok(ParamRole::Body { name: names[0] })
                } else {
                    Err(ArgumentError::ExpectedSingleName)
                },
                TypeRole::Ignored => Ok(ParamRole::Ignored),
            },
        },
    }
}

fn zip_names(names: Vec<String>, types: Vec<TypeExpr>) -> (r: Vec<(String, TypeExpr)>)
    requires
        names@.len() == types@.len(),
    ensures
        r@ == zip_captures(names@, types@),
{
    let ghost given_names = names@;
    let ghost given_types = types@;
    let mut names = names;
    let mut types = types;
    let mut out: Vec<(String, TypeExpr)> = Vec::new();
    while names.len() > 0
        invariant
            names@.len() == types@.len(),
            given_names.len() == given_types.len(),
            out@.len() + names@.len() == given_names.len(),
            names@ == given_names.subrange(out@.len() as int, given_names.len() as int),
            types@ == given_types.subrange(out@.len() as int, given_types.len() as int),
            out@ =~= zip_captures(given_names, given_types).subrange(0, out@.len() as int),
        decreases names@.len(),
    {
        let name = names.remove(0);
        let ty = types.remove(0);
        out.push((name, ty));
    }
    proof {
        assert(out@ =~= zip_captures(given_names, given_types));
    }
    out
}

impl Argument {
    /// Classifies one declared parameter: the names its pattern binds, the
    /// role its type gives it, and the check that the two fit together.
    pub fn classify(arg: FnArg) -> (r: Result<Argument, ArgumentError>)
        ensures
            result_view(r) == argument_role(arg),
    {
        match arg {
            FnArg::Receiver => Ok(Argument::Ignored),
            FnArg::Typed { pat, ty } => {
                let name = match ArgumentName::from_pattern(pat) {
                    Ok(name) => name,
                    Err(e) => {
                        return Err(e);
                    },
                };
                match ArgumentType::from_type(ty) {
                    ArgumentType::Json(inner) => match name.single() {
                        Ok(name) => Ok(Argument::Json { name, inner_type: inner }),
                        Err(e) => Err(e),
                    },
                    ArgumentType::Query(inner) => match name.single() {
                        Ok(name) => Ok(Argument::Query { name, inner_type: inner }),
                        Err(e) => Err(e),
                    },
                    ArgumentType::Path(types) => {
                        let names = name.multiple();
                        if names.len() == types.len() {
                            Ok(Argument::Path { inner_types: zip_names(names, types) })
                        } else {
                            Err(ArgumentError::PathNotDestructured)
                        }
                    },
                    ArgumentType::Body => match name.single() {
                        Ok(name) => Ok(Argument::Body { name }),
                        Err(e) => Err(e),
                    },
                    ArgumentType::Ignored => Ok(Argument::Ignored),
                }
            },
        }
    }
}

} // verus!
