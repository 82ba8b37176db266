use proc_macro2::{Delimiter, TokenStream, TokenTree};
use wrpc_macro::text::{join_with, split_segments};
use wrpc_macro::{
    compile_template, rpc, target_expression, Argument, ArgumentError, ArgumentName, ArgumentType,
    AttributeOption, Declaration, FnArg, GenericArg, Pattern, RpcAttribute, RpcError, RpcSignature,
    TypeExpr, TypeKind,
};

fn flatten(ts: TokenStream, out: &mut Vec<String>) {
    for tt in ts {
        match tt {
            TokenTree::Group(g) => {
                let (open, close) = match g.delimiter() {
                    Delimiter::Parenthesis => ("(", ")"),
                    Delimiter::Brace => ("{", "}"),
                    Delimiter::Bracket => ("[", "]"),
                    Delimiter::None => ("", ""),
                };
                out.push(open.to_string());
                flatten(g.stream(), out);
                out.push(close.to_string());
            }
            TokenTree::Ident(i) => out.push(i.to_string()),
            TokenTree::Punct(p) => out.push(p.as_char().to_string()),
            TokenTree::Literal(l) => out.push(l.to_string()),
        }
    }
}

fn tokens(s: &str) -> Vec<String> {
    let ts: TokenStream = s.parse().unwrap();
    let mut out = Vec::new();
    flatten(ts, &mut out);
    out
}

fn contains(haystack: &[String], needle: &[String]) -> bool {
    needle.is_empty() || haystack.windows(needle.len()).any(|w| w == needle)
}

fn path_ty(ident: &str, args: Vec<TypeExpr>, text: &str) -> TypeExpr {
    TypeExpr {
        kind: TypeKind::Path {
            ident: ident.to_string(),
            args: args.into_iter().map(|ty| GenericArg::Type { ty }).collect(),
        },
        text: text.to_string(),
    }
}

fn plain(ident: &str) -> TypeExpr {
    path_ty(ident, vec![], ident)
}

fn wrapped(wrapper: &str, inner: TypeExpr) -> TypeExpr {
    let text = format!("{}<{}>", wrapper, inner.text);
    path_ty(wrapper, vec![inner], &text)
}

fn tuple(elems: Vec<TypeExpr>) -> TypeExpr {
    let text = format!(
        "({})",
        elems.iter().map(|e| e.text.clone()).collect::<Vec<_>>().join(", ")
    );
    TypeExpr { kind: TypeKind::Tuple { elems }, text }
}

fn ident(name: &str) -> Pattern {
    Pattern::Ident { name: name.to_string() }
}

fn destructure(names: &[&str]) -> Pattern {
    Pattern::TupleStruct { elems: names.iter().map(|n| ident(n)).collect() }
}

fn typed(pat: Pattern, ty: TypeExpr) -> FnArg {
    FnArg::Typed { pat, ty }
}

fn method(name: &str, path: &str) -> AttributeOption {
    AttributeOption { name: name.to_string(), literal: Some(path.to_string()), ty: None }
}

fn override_option(ty: TypeExpr) -> AttributeOption {
    AttributeOption { name: "returns".to_string(), literal: None, ty: Some(ty) }
}

fn decl(name: &str, inputs: Vec<FnArg>, output: Option<TypeExpr>) -> Declaration {
    Declaration {
        name: name.to_string(),
        vis: "pub".to_string(),
        inputs,
        output,
        text: format!("pub async fn {}() {{}}", name),
    }
}

fn generate(options: Vec<AttributeOption>, d: Declaration) -> Vec<String> {
    tokens(&rpc(options, d).unwrap())
}

#[test]
fn ping_stub_takes_nothing_and_reads_text() {
    let out = generate(
        vec![method("get", "/api/ping")],
        decl("ping", vec![], Some(plain("String"))),
    );
    assert!(contains(&out, &tokens("pub async fn call_ping() -> ::wrpc::Result<String>")));
    assert!(contains(&out, &tokens(r#"Request::get("/api/ping").send().await?.text().await"#)));
    assert!(!out.contains(&"body".to_string()));
}

#[test]
fn json_return_of_any_shape_is_unwrapped() {
    let ret = wrapped("Json", wrapped("Vec", plain("User")));
    let out = generate(vec![method("get", "/api/users")], decl("users", vec![], Some(ret)));
    assert!(contains(&out, &tokens("-> ::wrpc::Result<Vec<User>>")));
    assert!(contains(&out, &tokens(".send().await?.json().await")));
}

#[test]
fn override_wins_over_opaque_return() {
    let ret = TypeExpr { kind: TypeKind::ImplTrait, text: "impl IntoResponse".to_string() };
    let out = generate(
        vec![method("post", "/api/user/:id/update"), override_option(plain("User"))],
        decl("update", vec![typed(destructure(&["id"]), wrapped("Path", plain("u32")))], Some(ret)),
    );
    assert!(contains(&out, &tokens("pub async fn call_update(id: u32) -> ::wrpc::Result<User>")));
    assert!(contains(&out, &tokens(".json().await")));
}

#[test]
fn json_shaped_override_is_unwrapped() {
    let out = generate(
        vec![method("get", "/api/me"), override_option(wrapped("Json", plain("User")))],
        decl("me", vec![], Some(plain("String"))),
    );
    assert!(contains(&out, &tokens("-> ::wrpc::Result<User>")));
    assert!(contains(&out, &tokens(".json().await")));
}

#[test]
fn text_return_without_override_is_text() {
    let out = generate(
        vec![method("get", "/api/status")],
        decl("status", vec![], Some(TypeExpr { kind: TypeKind::ImplTrait, text: "impl IntoResponse".to_string() })),
    );
    assert!(contains(&out, &tokens("-> ::wrpc::Result<String>")));
    assert!(contains(&out, &tokens(".text().await")));
}

#[test]
fn query_and_json_body_stay_apart() {
    let out = generate(
        vec![method("put", "/api/items")],
        decl(
            "put_item",
            vec![
                typed(ident("filter"), wrapped("Query", plain("Filter"))),
                typed(destructure(&["item"]), wrapped("Json", plain("Item"))),
            ],
            Some(plain("String")),
        ),
    );
    assert!(contains(
        &out,
        &tokens("pub async fn call_put_item(filter: &Filter, item: &Item)")
    ));
    assert!(contains(
        &out,
        &tokens(r#"client.put(&::std::format!("/api/items?{}", ::serde_qs::to_string(filter).unwrap())).body(::serde_json::to_string(item).unwrap())"#)
    ));
}

#[test]
fn generating_twice_gives_the_same_text() {
    let make = || {
        (
            vec![method("get", "/api/t/:team/:id")],
            decl(
                "both",
                vec![typed(
                    Pattern::TupleStruct {
                        elems: vec![Pattern::Tuple { elems: vec![ident("team"), ident("id")] }],
                    },
                    wrapped("Path", tuple(vec![plain("String"), plain("u32")])),
                )],
                Some(plain("String")),
            ),
        )
    };
    let (o1, d1) = make();
    let (o2, d2) = make();
    assert_eq!(rpc(o1, d1).unwrap(), rpc(o2, d2).unwrap());
}

#[test]
fn path_tuple_needs_every_name() {
    let d = decl(
        "h",
        vec![typed(destructure(&["id"]), wrapped("Path", tuple(vec![plain("String"), plain("u32")])))],
        Some(plain("String")),
    );
    assert_eq!(
        rpc(vec![method("get", "/api/:team/:id")], d),
        Err(RpcError::Argument { param: 0, error: ArgumentError::PathNotDestructured })
    );
}

#[test]
fn missing_method_is_an_error() {
    let d = decl("h", vec![], Some(plain("String")));
    assert_eq!(rpc(vec![override_option(plain("User"))], d), Err(RpcError::MissingMethod));
    let d = decl("h", vec![], Some(plain("String")));
    assert_eq!(rpc(vec![], d), Err(RpcError::MissingMethod));
}

#[test]
fn unknown_option_is_an_error() {
    let d = decl("h", vec![], Some(plain("String")));
    let bad = AttributeOption { name: "head".to_string(), literal: Some("/x".to_string()), ty: None };
    assert_eq!(
        rpc(vec![method("get", "/x"), bad], d),
        Err(RpcError::UnexpectedOption { index: 1 })
    );
}

#[test]
fn option_without_fitting_content_is_an_error() {
    let d = decl("h", vec![], Some(plain("String")));
    let get = AttributeOption { name: "get".to_string(), literal: None, ty: Some(plain("X")) };
    assert_eq!(rpc(vec![get], d), Err(RpcError::InvalidOptionValue { index: 0 }));
    let d = decl("h", vec![], Some(plain("String")));
    let ret = AttributeOption { name: "returns".to_string(), literal: Some("x".to_string()), ty: None };
    assert_eq!(
        rpc(vec![method("get", "/x"), ret], d),
        Err(RpcError::InvalidOptionValue { index: 1 })
    );
}

#[test]
fn missing_return_is_an_error() {
    let d = decl("h", vec![], None);
    assert_eq!(rpc(vec![method("get", "/x")], d), Err(RpcError::MissingReturn));
}

#[test]
fn handler_errors_come_before_option_errors() {
    let d = decl("h", vec![], None);
    assert_eq!(rpc(vec![], d), Err(RpcError::MissingReturn));
}

#[test]
fn pattern_errors() {
    let wild = decl("h", vec![typed(Pattern::Other, plain("State"))], Some(plain("String")));
    assert_eq!(
        rpc(vec![method("get", "/x")], wild),
        Err(RpcError::Argument { param: 0, error: ArgumentError::UnsupportedPattern })
    );
    let nested = Pattern::TupleStruct {
        elems: vec![Pattern::Tuple { elems: vec![ident("a"), Pattern::Other] }],
    };
    let d = decl(
        "h",
        vec![typed(ident("s"), plain("State")), typed(nested, wrapped("Path", tuple(vec![plain("u8"), plain("u8")])))],
        Some(plain("String")),
    );
    assert_eq!(
        rpc(vec![method("get", "/x")], d),
        Err(RpcError::Argument { param: 1, error: ArgumentError::NonIdentInDestructure })
    );
    let several = Pattern::TupleStruct {
        elems: vec![Pattern::Tuple { elems: vec![ident("a"), ident("b")] }],
    };
    let d = decl("h", vec![typed(several, wrapped("Json", plain("T")))], Some(plain("String")));
    assert_eq!(
        rpc(vec![method("post", "/x")], d),
        Err(RpcError::Argument { param: 0, error: ArgumentError::ExpectedSingleName })
    );
}

#[test]
fn first_method_and_first_override_win() {
    let out = generate(
        vec![
            method("get", "/first"),
            override_option(plain("A")),
            method("post", "/second"),
            override_option(plain("B")),
        ],
        decl("h", vec![], Some(plain("String"))),
    );
    assert!(contains(&out, &tokens(r#"Request::get("/first")"#)));
    assert!(contains(&out, &tokens("::wrpc::Result<A>")));
    assert!(!out.contains(&"post".to_string()));
}

#[test]
fn json_body_drops_text_body() {
    let out = generate(
        vec![method("post", "/x")],
        decl(
            "h",
            vec![typed(ident("text"), plain("String")), typed(ident("data"), wrapped("Json", plain("D")))],
            Some(plain("String")),
        ),
    );
    assert!(contains(&out, &tokens("pub async fn call_h(data: &D)")));
    assert!(contains(&out, &tokens(".body(::serde_json::to_string(data).unwrap())")));
    assert!(!contains(&out, &tokens("text: &str")));
    assert!(!contains(&out, &tokens("to_string(text)")));
}

#[test]
fn captures_accumulate_over_path_parameters() {
    let out = generate(
        vec![method("get", "/t/:team/u/:user")],
        decl(
            "h",
            vec![
                typed(destructure(&["team"]), wrapped("Path", plain("String"))),
                typed(ident("state"), plain("AppState")),
                typed(destructure(&["user"]), wrapped("Path", plain("u64"))),
            ],
            Some(plain("String")),
        ),
    );
    assert!(contains(&out, &tokens("pub async fn call_h(team: String, user: u64)")));
    assert!(contains(&out, &tokens(r#"&::std::format!("/t/{}/u/{}", team, user)"#)));
}

#[test]
fn reference_types_are_looked_through() {
    let text_ref = TypeExpr {
        kind: TypeKind::Reference { elem: Box::new(plain("str")) },
        text: "&str".to_string(),
    };
    assert!(matches!(ArgumentType::from_type(text_ref), ArgumentType::Body));
    let json_ref = TypeExpr {
        kind: TypeKind::Reference { elem: Box::new(wrapped("Json", plain("T"))) },
        text: "&Json<T>".to_string(),
    };
    match ArgumentType::from_type(json_ref) {
        ArgumentType::Json(inner) => assert_eq!(inner.text, "T"),
        _ => panic!("expected a JSON role"),
    }
}

#[test]
fn wrapper_needs_exactly_one_type_argument() {
    let two = path_ty("Json", vec![plain("A"), plain("B")], "Json<A, B>");
    assert!(matches!(ArgumentType::from_type(two), ArgumentType::Ignored));
    let bare = plain("Json");
    assert!(matches!(ArgumentType::from_type(bare), ArgumentType::Ignored));
    let lifetime = TypeExpr {
        kind: TypeKind::Path { ident: "Query".to_string(), args: vec![GenericArg::Other] },
        text: "Query<'a>".to_string(),
    };
    assert!(matches!(ArgumentType::from_type(lifetime), ArgumentType::Ignored));
    match ArgumentType::from_type(wrapped("Path", tuple(vec![plain("A"), plain("B")]))) {
        ArgumentType::Path(types) => assert_eq!(types.len(), 2),
        _ => panic!("expected a path role"),
    }
}

#[test]
fn names_of_patterns() {
    match ArgumentName::from_pattern(destructure(&["a", "b"])) {
        Ok(ArgumentName::Multiple(names)) => assert_eq!(names, vec!["a".to_string(), "b".to_string()]),
        _ => panic!("expected two names"),
    }
    let one = ArgumentName::from_pattern(destructure(&["a"])).unwrap();
    assert_eq!(one.single(), Ok("a".to_string()));
    let two = ArgumentName::from_pattern(destructure(&["a", "b"])).unwrap();
    assert_eq!(two.single(), Err(ArgumentError::ExpectedSingleName));
    let plain_name = ArgumentName::from_pattern(ident("x")).unwrap();
    assert_eq!(plain_name.multiple(), vec!["x".to_string()]);
}

#[test]
fn receiver_is_ignored() {
    assert!(matches!(Argument::classify(FnArg::Receiver), Ok(Argument::Ignored)));
}

#[test]
fn template_compiles_to_format_and_names() {
    let (format, names) = compile_template("/api/:a/x/:b");
    assert_eq!(format, "/api/{}/x/{}");
    assert_eq!(names, vec!["a".to_string(), "b".to_string()]);
    let (format, names) = compile_template("");
    assert_eq!(format, "");
    assert!(names.is_empty());
    let (format, names) = compile_template("/plain/path/");
    assert_eq!(format, "/plain/path/");
    assert!(names.is_empty());
}

#[test]
fn target_expression_interpolates() {
    let caps = vec!["team".to_string(), "id".to_string()];
    assert_eq!(
        target_expression("\"/t/{}/{}\"", &caps, None),
        "&::std::format!(\"/t/{}/{}\", team, id)"
    );
    let q = "query".to_string();
    assert_eq!(
        target_expression("\"/q?{}\"", &vec![], Some(&q)),
        "&::std::format!(\"/q?{}\", ::serde_qs::to_string(query).unwrap())"
    );
    assert_eq!(target_expression("\"/plain\"", &vec![], None), "\"/plain\"");
}

#[test]
fn path_literal_is_escaped() {
    let out = generate(vec![method("get", "/a\"b\\c")], decl("h", vec![], Some(plain("String"))));
    assert!(out.contains(&"\"/a\\\"b\\\\c\"".to_string()));
}

#[test]
fn split_and_join_are_inverse() {
    let segs = split_segments("/a//b");
    assert_eq!(segs, vec!["", "a", "", "b"]);
    assert_eq!(join_with(&segs, "/"), "/a//b");
    assert_eq!(split_segments(""), vec![""]);
}

#[test]
fn attribute_parse_keeps_route() {
    let attr = RpcAttribute::parse(vec![method("delete", "/x/:id")]).unwrap();
    assert_eq!(attr.method, "delete");
    assert_eq!(attr.path, "/x/:id");
    assert!(attr.return_override.is_none());
}

#[test]
fn signature_slots() {
    let sig = RpcSignature::from_parts(
        "h".to_string(),
        vec![typed(ident("q"), wrapped("Query", plain("Q"))), typed(ident("b"), plain("String"))],
        Some(plain("String")),
    )
    .unwrap();
    assert_eq!(sig.query.as_ref().map(|(n, t)| (n.clone(), t.text.clone())), Some(("q".to_string(), "Q".to_string())));
    assert_eq!(sig.body, Some("b".to_string()));
    assert!(sig.json.is_none());
    assert!(sig.path.is_empty());
    assert_eq!(sig.stub_parameters(), vec!["q: &Q".to_string(), "b: &str".to_string()]);
}

fn both_bodies() -> RpcSignature {
    RpcSignature::from_parts("h".to_string(), vec![], Some(plain("String")))
        .map(|mut sig| {
            sig.body = Some("text".to_string());
            sig.json = Some(("data".to_string(), plain("D")));
            sig
        })
        .unwrap()
}

#[test]
fn json_body_wins_over_text_body_on_any_signature() {
    let sig = both_bodies();
    assert_eq!(sig.body_call(), ".body(::serde_json::to_string(data).unwrap())");
    assert_eq!(sig.stub_parameters(), vec!["data: &D".to_string()]);
}

#[test]
fn request_signature_interpolates_through_the_literal() {
    let sig = RpcSignature::from_parts(
        "get_user".to_string(),
        vec![typed(destructure(&["id"]), wrapped("Path", plain("u32")))],
        Some(wrapped("Json", plain("User"))),
    )
    .unwrap();
    let attr = RpcAttribute::parse(vec![method("get", "/api/user/:id")]).unwrap();
    let literal = sig.route_literal(&attr);
    assert_eq!(literal, "\"/api/user/{}\"");
    let (target, tail) = sig.request_signature(&attr, &literal);
    assert_eq!(target, "&::std::format!(\"/api/user/{}\", id)");
    assert_eq!(tail, ".send().await?.json().await");
    let (stub, used) = sig.to_tokens(&attr, "pub");
    assert_eq!(used, literal);
    assert!(contains(&tokens(&stub), &tokens("pub async fn call_get_user(id: u32) -> ::wrpc::Result<User>")));
}

#[test]
fn query_goes_last_into_the_url_and_json_into_the_body() {
    let sig = RpcSignature::from_parts(
        "h".to_string(),
        vec![
            typed(ident("q"), wrapped("Query", plain("Q"))),
            typed(ident("j"), wrapped("Json", plain("J"))),
        ],
        Some(plain("String")),
    )
    .unwrap();
    let attr = RpcAttribute::parse(vec![method("post", "/x/:a")]).unwrap();
    let literal = sig.route_literal(&attr);
    assert_eq!(literal, "\"/x/{}?{}\"");
    let (target, tail) = sig.request_signature(&attr, &literal);
    assert_eq!(target, "&::std::format!(\"/x/{}?{}\", a, ::serde_qs::to_string(q).unwrap())");
    assert_eq!(tail, ".body(::serde_json::to_string(j).unwrap()).send().await?.text().await");
}

#[test]
fn error_messages() {
    let arity = RpcError::Argument { param: 0, error: ArgumentError::PathNotDestructured };
    assert_eq!(arity.message(), "Path tuples must be destructured");
    assert_eq!(RpcError::MissingReturn.message(), "Rpc functions must have a return");
    assert_eq!(RpcError::MissingMethod.message(), "Missing method");
    assert_eq!(RpcError::UnexpectedOption { index: 0 }.message(), "Unexpected option");
    assert_eq!(RpcError::InvalidOptionValue { index: 0 }.message(), "Invalid option value");
    assert_eq!(ArgumentError::ExpectedSingleName.message(), "Expected single name, found destructured tuple");
    assert_eq!(
        ArgumentError::NonIdentInDestructure.message(),
        "Expected tuple struct pattern to contain only idents"
    );
    assert_eq!(
        ArgumentError::UnsupportedPattern.message(),
        "Expected plain ident or tuple struct for argument name"
    );
}
