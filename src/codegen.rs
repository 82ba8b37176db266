//! Emitting the source text of the gated handler and of its call stub.
use vstd::prelude::*;

use crate::argument::{result_view, str_eq, wrapper_arg, ArgumentType, TypeRole};
use crate::attr::{attribute_of, RouteMetadata, RpcAttribute};
use crate::error::RpcError;
use crate::model::{AttributeOption, Declaration, GenericArg, TypeExpr, TypeKind};
use crate::signature::{signature_of, RpcSignature, SignatureModel, Slots};
use crate::text::{join, join_with, literal_for, split_segments, split_slash, string_literal, views};

verus! {

// ---------------------------------------------------------------------------
// The request target

/// A `:name` segment of a route template.
pub open spec fn is_capture(seg: Seq<char>) -> bool {
    seg.len() > 0 && seg[0] == ':'
}

/// A segment as it stands in the format text: captures become `{}`.
pub open spec fn render_segment(seg: Seq<char>) -> Seq<char> {
    if is_capture(seg) {
        "{}"@
    } else {
        seg
    }
}

/// The names of the capture segments, in order, without their `:`.
pub open spec fn capture_names(segs: Seq<Seq<char>>) -> Seq<Seq<char>>
    decreases segs.len(),
{
    if segs.len() == 0 {
        seq![]
    } else {
        let init = capture_names(segs.drop_last());
        if is_capture(segs.last()) {
            init.push(segs.last().subrange(1, segs.last().len() as int))
        } else {
            init
        }
    }
}

/// The format text of a route template.
pub open spec fn template_format(path: Seq<char>) -> Seq<char> {
    join(split_slash(path).map_values(|s: Seq<char>| render_segment(s)), "/"@)
}

/// The names of a route template's captures, in order.
pub open spec fn template_captures(path: Seq<char>) -> Seq<Seq<char>> {
    capture_names(split_slash(path))
}

/// The format text, with a query placeholder where there is a query.
pub open spec fn format_text(path: Seq<char>, has_query: bool) -> Seq<char> {
    if has_query {
        template_format(path) + "?{}"@
    } else {
        template_format(path)
    }
}

/// `, a, b, ..`: one argument after each comma.
pub open spec fn comma_list(items: Seq<Seq<char>>) -> Seq<char>
    decreases items.len(),
{
    if items.len() == 0 {
        seq![]
    } else {
        comma_list(items.drop_last()) + ", "@ + items.last()
    }
}

/// The interpolation argument that serialises the query parameter `q`.
pub open spec fn query_arg(q: Option<Seq<char>>) -> Seq<char> {
    match q {
        Some(n) => ", ::serde_qs::to_string("@ + n + ").unwrap()"@,
        None => seq![],
    }
}

/// The URL expression, given the literal written for the format text: a
/// `format!` call where anything is interpolated, else the literal itself.
pub open spec fn target_expr(literal: Seq<char>, captures: Seq<Seq<char>>, query: Option<Seq<char>>) -> Seq<char> {
    if captures.len() > 0 || query is Some {
        "&::std::format!("@ + literal + comma_list(captures) + query_arg(query) + ")"@
    } else {
        literal
    }
}

/// The name of the query parameter.
pub open spec fn query_name(s: Slots) -> Option<Seq<char>> {
    match s.query {
        Some((n, _)) => Some(n@),
        None => None,
    }
}

/// The format text of the request URL for signature `s` on route `m`.
pub open spec fn route_format(s: SignatureModel, m: RouteMetadata) -> Seq<char> {
    format_text(m.path@, query_name(s.slots) is Some)
}

/// The URL expression of a request to `path` with the query parameter
/// `query`, where `literal` is the literal written for its format text.
pub open spec fn request_target(path: Seq<char>, query: Option<Seq<char>>, literal: Seq<char>) -> Seq<char> {
    target_expr(literal, template_captures(path), query)
}

// ---------------------------------------------------------------------------
// Body and response

/// The call that attaches the body: a JSON body encoded, else a text body
/// as an owned string, else none. A request has one body, and JSON wins.
pub open spec fn body_expr(s: Slots) -> Seq<char> {
    match s.json {
        Some((n, _)) => ".body(::serde_json::to_string("@ + n@ + ").unwrap())"@,
        None => match s.body {
            Some(n) => ".body(::std::string::ToString::to_string("@ + n@ + "))"@,
            None => seq![],
        },
    }
}

/// The type that the response is decoded into as JSON, or `None` where it
/// is read as text: an override (unwrapped where it is `Json<T>`) wins, then
/// a `Json<T>` return type.
pub open spec fn decoded_type(ret: TypeRole, return_override: Option<TypeExpr>) -> Option<Seq<char>> {
    match return_override {
        Some(t) => match wrapper_arg(t, "Json"@) {
            Some(inner) => Some(inner.text@),
            None => Some(t.text@),
        },
        None => match ret {
            TypeRole::Json(inner) => Some(inner.text@),
            _ => None,
        },
    }
}

pub open spec fn extractor(decoded: Option<Seq<char>>) -> Seq<char> {
    if decoded is Some {
        ".json()"@
    } else {
        ".text()"@
    }
}

pub open spec fn stub_return(decoded: Option<Seq<char>>) -> Seq<char> {
    match decoded {
        Some(t) => t,
        None => "String"@,
    }
}

/// Everything after the request's constructor: body, send, decode.
pub open spec fn request_tail(s: SignatureModel, m: RouteMetadata) -> Seq<char> {
    body_expr(s.slots) + ".send().await?"@ + extractor(decoded_type(s.ret, m.return_override))
        + ".await"@
}

// ---------------------------------------------------------------------------
// The stub

pub open spec fn wasm_text(s: SignatureModel, m: RouteMetadata, literal: Seq<char>) -> Seq<char> {
    "::reqwasm::http::Request::"@ + m.method@ + "("@ + request_target(
        m.path@,
        query_name(s.slots),
        literal,
    ) + ")"@ + request_tail(s, m)
}

pub open spec fn reqwest_text(s: SignatureModel, m: RouteMetadata, literal: Seq<char>) -> Seq<char> {
    "let client = ::reqwest::Client::new(); client."@ + m.method@ + "("@ + request_target(
        m.path@,
        query_name(s.slots),
        literal,
    ) + ")"@ + request_tail(s, m)
}

pub open spec fn capture_param(c: (String, TypeExpr)) -> Seq<char> {
    c.0@ + ": "@ + c.1.text@
}

pub open spec fn optional_param(p: Option<Seq<char>>) -> Seq<Seq<char>> {
    match p {
        Some(x) => seq![x],
        None => seq![],
    }
}

/// The stub's parameters: captures by value, then the query by reference,
/// the text body as `&str` and the JSON body by reference.
pub open spec fn stub_params(s: Slots) -> Seq<Seq<char>> {
    s.path.map_values(|c: (String, TypeExpr)| capture_param(c)) + optional_param(
        match s.query {
            Some((n, t)) => Some(n@ + ": &"@ + t.text@),
            None => None,
        },
    ) + optional_param(
        match s.body {
            Some(n) => if s.json is None {
                Some(n@ + ": &str"@)
            } else {
                None
            },
            None => None,
        },
    ) + optional_param(
        match s.json {
            Some((n, t)) => Some(n@ + ": &"@ + t.text@),
            None => None,
        },
    )
}

pub open spec fn stub_signature(s: SignatureModel, m: RouteMetadata, vis: Seq<char>) -> Seq<char> {
    vis + " async fn call_"@ + s.name@ + "("@ + join(stub_params(s.slots), ", "@)
        + ") -> ::wrpc::Result<"@ + stub_return(decoded_type(s.ret, m.return_override)) + ">"@
}

/// The stub twice: over the browser transport on wasm32, over the native
/// one elsewhere.
pub open spec fn stub_text(s: SignatureModel, m: RouteMetadata, vis: Seq<char>, literal: Seq<char>) -> Seq<char> {
    "#[cfg(target_arch = \"wasm32\")] "@ + stub_signature(s, m, vis) + " { "@ + wasm_text(
        s,
        m,
        literal,
    ) + " } #[cfg(not(target_arch = \"wasm32\"))] "@ + stub_signature(s, m, vis) + " { "@
        + reqwest_text(s, m, literal) + " }"@
}

/// The handler, gated to the server, followed by its stub.
pub open spec fn output_text(
    s: SignatureModel,
    m: RouteMetadata,
    vis: Seq<char>,
    handler: Seq<char>,
    literal: Seq<char>,
) -> Seq<char> {
    "#[cfg(any(not(target_arch = \"wasm32\"), not(client)))] "@ + handler + " "@ + stub_text(
        s,
        m,
        vis,
        literal,
    )
}

/// The signature and the route that generation works from, or the first
/// error: the handler's, then the options'.
pub open spec fn rpc_plan(options: Seq<AttributeOption>, handler: Declaration) -> Result<
    (SignatureModel, RouteMetadata),
    RpcError,
> {
    match signature_of(handler.name, handler.inputs@, handler.output) {
        Err(e) => Err(e),
        Ok(s) => match attribute_of(options) {
            Err(e) => Err(e),
            Ok(m) => Ok((s, m)),
        },
    }
}

/// `out` is what generation yields for a handler and its options: the
/// output text with some literal written for the route's format text.
pub open spec fn rpc_produces(options: Seq<AttributeOption>, handler: Declaration, out: Seq<char>) -> bool {
    match rpc_plan(options, handler) {
        Ok((s, m)) => exists|literal: Seq<char>|
            literal_for(route_format(s, m), literal) && out == #[trigger] output_text(
                s,
                m,
                handler.vis@,
                handler.text@,
                literal,
            ),
        Err(_) => false,
    }
}

// ---------------------------------------------------------------------------
// Executable emitter

/// Compiles a route template into its format text and the names of its
/// captures, in order.
pub fn compile_template(path: &str) -> (r: (String, Vec<String>))
    ensures
        r.0@ == template_format(path@),
        views(r.1@) == template_captures(path@),
{
    let segs = split_segments(path);
    let ghost all = views(segs@);
    let mut rendered: Vec<String> = Vec::new();
    let mut names: Vec<String> = Vec::new();
    let mut i: usize = 0;
    while i < segs.len()
        invariant
            i <= segs@.len(),
            all == views(segs@),
            views(rendered@) =~= all.take(i as int).map_values(|s: Seq<char>| render_segment(s)),
            views(names@) == capture_names(all.take(i as int)),
        decreases segs@.len() - i,
    {
        proof {
            assert(all.take(i + 1).drop_last() =~= all.take(i as int));
            assert(all.take(i + 1).last() == segs@[i as int]@);
        }
        let seg = segs[i].as_str();
        let n = seg.unicode_len();
        if n > 0 && seg.get_char(0) == ':' {
            let lit = String::from_str("{}");
            let name = String::from_str(seg.substring_char(1, n));
            proof {
                assert(views(rendered@.push(lit)) =~= views(rendered@).push(lit@));
                assert(views(names@.push(name)) =~= views(names@).push(name@));
            }
            rendered.push(lit);
            names.push(name);
        } else {
            let kept = segs[i].clone();
            proof {
                assert(views(rendered@.push(kept)) =~= views(rendered@).push(kept@));
            }
            rendered.push(kept);
        }
        i = i + 1;
    }
    proof {
        assert(all.take(i as int) =~= all);
    }
    (join_with(&rendered, "/"), names)
}

/// Builds the URL expression from the literal written for its format text,
/// the capture names and the query parameter's name.
pub fn target_expression(literal: &str, captures: &Vec<String>, query: Option<&String>) -> (r: String)
    ensures
        r@ == target_expr(
            literal@,
            views(captures@),
            match query {
                Some(q) => Some(q@),
                None => None,
            },
        ),
{
    if captures.len() == 0 && query.is_none() {
        return String::from_str(literal);
    }
    let ghost all = views(captures@);
    let mut out = String::from_str("&::std::format!(");
    out.append(literal);
    let ghost head = out@;
    let mut i: usize = 0;
    while i < captures.len()
        invariant
            i <= captures@.len(),
            all == views(captures@),
            out@ == head + comma_list(all.take(i as int)),
        decreases captures@.len() - i,
    {
        proof {
            assert(all.take(i + 1).drop_last() =~= all.take(i as int));
            assert(all.take(i + 1).last() == captures@[i as int]@);
        }
        out.append(", ");
        out.append(captures[i].as_str());
        proof {
            assert(out@ =~= head + comma_list(all.take(i + 1)));
        }
        i = i + 1;
    }
    proof {
        assert(all.take(i as int) =~= all);
    }
    match query {
        Some(q) => {
            out.append(", ::serde_qs::to_string(");
            out.append(q.as_str());
            out.append(").unwrap()");
        },
        None => {},
    }
    out.append(")");
    proof {
        assert(out@ =~= target_expr(
            literal@,
            views(captures@),
            match query {
                Some(q) => Some(q@),
                None => None,
            },
        ));
    }
    out
}

pub open spec fn opt_view(o: Option<String>) -> Option<Seq<char>> {
    match o {
        Some(x) => Some(x@),
        None => None,
    }
}

/// The text of `T` where `t` is `Json<T>`.
fn json_inner_text(t: &TypeExpr) -> (r: Option<String>)
    ensures
        opt_view(r) == match wrapper_arg(*t, "Json"@) {
            Some(inner) => Some(inner.text@),
            None => None::<Seq<char>>,
        },
{
    match &t.kind {
        TypeKind::Path { ident, args } => {
            if str_eq(ident, "Json") && args.len() == 1 {
                match &args[0] {
                    GenericArg::Type { ty } => Some(ty.text.clone()),
                    GenericArg::Other => None,
                }
            } else {
                None
            }
        },
        _ => None,
    }
}

/// Appends `(name)` after `head` and `tail` after it.
fn call_text(head: &str, name: &String, tail: &str) -> (r: String)
    ensures
        r@ == head@ + name@ + tail@,
{
    let mut out = String::from_str(head);
    out.append(name.as_str());
    out.append(tail);
    out
}

impl RpcSignature {
    /// The type the response is decoded into as JSON, or `None` for text.
    pub fn decoded(&self, options: &RpcAttribute) -> (r: Option<String>)
        ensures
            opt_view(r) == decoded_type(self.return_type@, options.return_override),
    {
        match &options.return_override {
            Some(t) => match json_inner_text(t) {
                Some(inner) => Some(inner),
                None => Some(t.text.clone()),
            },
            None => match &self.return_type {
                ArgumentType::Json(inner) => Some(inner.text.clone()),
                _ => None,
            },
        }
    }

    /// The call that attaches the request body, if any.
    pub fn body_call(&self) -> (r: String)
        ensures
            r@ == body_expr(self@.slots),
    {
        match &self.json {
            Some((n, _)) => call_text(".body(::serde_json::to_string(", n, ").unwrap())"),
            None => match &self.body {
                Some(n) => call_text(".body(::std::string::ToString::to_string(", n, "))"),
                None => String::new(),
            },
        }
    }

    /// The literal written for the format text of the request URL.
    pub fn route_literal(&self, options: &RpcAttribute) -> (r: String)
        ensures
            literal_for(route_format(self@, options@), r@),
    {
        let (format, _) = compile_template(options.path.as_str());
        let mut format = format;
        if self.query.is_some() {
            format.append("?{}");
        }
        string_literal(format.as_str())
    }

    /// The URL expression of the request, given the literal written for its
    /// format text, and what follows the request's constructor.
    pub fn request_signature(&self, options: &RpcAttribute, literal: &str) -> (r: (String, String))
        ensures
            r.0@ == request_target(options.path@, query_name(self@.slots), literal@),
            r.1@ == request_tail(self@, options@),
    {
        let (_, captures) = compile_template(options.path.as_str());
        let query = match &self.query {
            Some((n, _)) => Some(n),
            None => None,
        };
        let target = target_expression(literal, &captures, query);
        let mut tail = self.body_call();
        tail.append(".send().await?");
        let decoded = self.decoded(options);
        if decoded.is_some() {
            tail.append(".json()");
        } else {
            tail.append(".text()");
        }
        tail.append(".await");
        (target, tail)
    }

    /// The stub's body on wasm32.
    pub fn wasm_body(&self, options: &RpcAttribute, literal: &str) -> (r: String)
        ensures
            r@ == wasm_text(self@, options@, literal@),
    {
        let (target, tail) = self.request_signature(options, literal);
        let mut out = String::from_str("::reqwasm::http::Request::");
        out.append(options.method.as_str());
        out.append("(");
        out.append(target.as_str());
        out.append(")");
        out.append(tail.as_str());
        out
    }

    /// The stub's body elsewhere.
    pub fn reqwest_body(&self, options: &RpcAttribute, literal: &str) -> (r: String)
        ensures
            r@ == reqwest_text(self@, options@, literal@),
    {
        let (target, tail) = self.request_signature(options, literal);
        let mut out = String::from_str("let client = ::reqwest::Client::new(); client.");
        out.append(options.method.as_str());
        out.append("(");
        out.append(target.as_str());
        out.append(")");
        out.append(tail.as_str());
        out
    }
}

fn typed_text(name: &String, sep: &str, ty: &TypeExpr) -> (r: String)
    ensures
        r@ == name@ + sep@ + ty.text@,
{
    let mut out = name.clone();
    out.append(sep);
    out.append(ty.text.as_str());
    out
}

fn push_view(v: &mut Vec<String>, s: String)
    ensures
        final(v)@ == old(v)@.push(s),
        views(final(v)@) == views(old(v)@).push(s@),
{
    proof {
        assert(views(v@.push(s)) =~= views(v@).push(s@));
    }
    v.push(s);
}

impl RpcSignature {
    /// The stub's parameters, each as `name: Type`.
    pub fn stub_parameters(&self) -> (r: Vec<String>)
        ensures
            views(r@) == stub_params(self@.slots),
    {
        let ghost caps = self.path@.map_values(|c: (String, TypeExpr)| capture_param(c));
        let mut out: Vec<String> = Vec::new();
        let mut i: usize = 0;
        while i < self.path.len()
            invariant
                i <= self.path@.len(),
                caps == self.path@.map_values(|c: (String, TypeExpr)| capture_param(c)),
                views(out@) =~= caps.take(i as int),
            decreases self.path@.len() - i,
        {
            let (name, ty) = &self.path[i];
            let p = typed_text(name, ": ", ty);
            push_view(&mut out, p);
            i = i + 1;
        }
        proof {
            assert(caps.take(i as int) =~= caps);
        }
        let ghost before_query = views(out@);
        match &self.query {
            Some((n, t)) => push_view(&mut out, typed_text(n, ": &", t)),
            None => {},
        }
        let ghost before_body = views(out@);
        match &self.body {
            Some(n) => {
                if self.json.is_none() {
                    push_view(&mut out, call_text("", n, ": &str"));
                }
            },
            None => {},
        }
        let ghost before_json = views(out@);
        match &self.json {
            Some((n, t)) => push_view(&mut out, typed_text(n, ": &", t)),
            None => {},
        }
        proof {
            reveal_strlit("");
            assert(""@ =~= Seq::<char>::empty());
            assert(views(out@) =~= stub_params(self@.slots));
        }
        out
    }

    /// The stub's signature: `call_` and the handler's name, the stub
    /// parameters, and the decoded type inside `::wrpc::Result`.
    pub fn stub_signature(&self, options: &RpcAttribute, vis: &str) -> (r: String)
        ensures
            r@ == stub_signature(self@, options@, vis@),
    {
        let params = self.stub_parameters();
        let params = join_with(&params, ", ");
        let mut out = String::from_str(vis);
        out.append(" async fn call_");
        out.append(self.name.as_str());
        out.append("(");
        out.append(params.as_str());
        out.append(") -> ::wrpc::Result<");
        match self.decoded(options) {
            Some(t) => out.append(t.as_str()),
            None => out.append("String"),
        }
        out.append(">");
        out
    }

    /// The stub, once for each target.
    /// Also returns the literal written for the URL's format text.
    pub fn to_tokens(&self, options: &RpcAttribute, vis: &str) -> (r: (String, String))
        ensures
            literal_for(route_format(self@, options@), r.1@),
            r.0@ == stub_text(self@, options@, vis@, r.1@),
    {
        let literal = self.route_literal(options);
        let sig = self.stub_signature(options, vis);
        let wasm = self.wasm_body(options, literal.as_str());
        let native = self.reqwest_body(options, literal.as_str());
        let mut out = String::from_str("#[cfg(target_arch = \"wasm32\")] ");
        out.append(sig.as_str());
        out.append(" { ");
        out.append(wasm.as_str());
        out.append(" } #[cfg(not(target_arch = \"wasm32\"))] ");
        out.append(sig.as_str());
        out.append(" { ");
        out.append(native.as_str());
        out.append(" }");
        (out, literal)
    }
}

/// Generates the handler gated to the server and its call stub, or the
/// first error: the handler's, then the options'.
pub fn rpc(options: Vec<AttributeOption>, handler: Declaration) -> (r: Result<String, RpcError>)
    ensures
        r is Ok <==> rpc_plan(options@, handler) is Ok,
        r matches Err(e) ==> rpc_plan(options@, handler) == Err::<(SignatureModel, RouteMetadata), RpcError>(e),
        r matches Ok(out) ==> rpc_produces(options@, handler, out@),
{
    let Declaration { name, vis, inputs, output, text } = handler;
    let sig = match RpcSignature::from_parts(name, inputs, output) {
        Ok(sig) => sig,
        Err(e) => {
            return Err(e);
        },
    };
    let attr = match RpcAttribute::parse(options) {
        Ok(attr) => attr,
        Err(e) => {
            return Err(e);
        },
    };
    let (stub, literal) = sig.to_tokens(&attr, vis.as_str());
    let mut out = String::from_str("#[cfg(any(not(target_arch = \"wasm32\"), not(client)))] ");
    out.append(text.as_str());
    out.append(" ");
    out.append(stub.as_str());
    proof {
        assert(out@ == output_text(sig@, attr@, vis@, text@, literal@));
    }
    Ok(out)
}

} // verus!
