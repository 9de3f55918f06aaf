use vstd::prelude::*;
use vstd::string::*;
use crate::model::{
    call_shape, shape_of, texts, type_ref, CallShape, MethodDescription, MethodModel,
    ServiceDescription, ServiceModel,
};
use crate::naming::{
    derive_identifier, derive_route, doc_lines, join_lines, lines_text, propagate_comments,
    quoted_literal, route, snake, string_literal,
};

verus! {

/// Why a service or a method cannot be generated.
#[derive(Clone, Copy, Debug, PartialEq, Eq, Structural)]
pub enum GenError {
    /// The method streams in some direction; only unary calls are generated.
    UnsupportedStreaming(CallShape),
    /// The method's codec path does not parse as a type path.
    InvalidCodecPath,
}

/// Whether `syn` parses the text as a type path.
pub uninterp spec fn is_type_path(s: Seq<char>) -> bool;

/// Relies on `syn::parse_str::<syn::Path>`: whether the text parses as a path.
#[verifier::external_body]
fn parses_as_path(s: &str) -> (r: bool)
    ensures
        r == is_type_path(s@),
{
    syn::parse_str::<syn::Path>(s).is_ok()
}

/// The error that generating `m` meets, if any: a streaming shape first, then a
/// malformed codec path.
pub open spec fn method_error(m: MethodModel) -> Option<GenError> {
    let shape = shape_of(m.client_streaming, m.server_streaming);
    if shape != CallShape::Unary {
        Some(GenError::UnsupportedStreaming(shape))
    } else if !is_type_path(m.codec_path) {
        Some(GenError::InvalidCodecPath)
    } else {
        None
    }
}

/// The error of the first method, in declared order, that has one.
pub open spec fn first_error(ms: Seq<MethodModel>) -> Option<GenError>
    decreases ms.len(),
{
    if ms.len() == 0 {
        None
    } else {
        match first_error(ms.drop_last()) {
            Some(e) => Some(e),
            None => method_error(ms.last()),
        }
    }
}

pub const READY_STEP: &'static str = "    self.inner.ready().await.map_err(|e| {\n      tonic::Status::new(tonic::Code::Unknown, format!(\"Service was not ready: {}\", e.into()))\n    })?;\n";

pub const CALL_STEP: &'static str = "    self.inner.unary(request.into_request(), path, codec).await\n  }\n";

/// The opening line of a generated async method.
pub open spec fn signature(ident: Seq<char>, req: Seq<char>, res: Seq<char>) -> Seq<char> {
    "  async fn "@ + ident + "(&mut self, request: impl tonic::IntoRequest<"@ + req
        + ">) -> Result<tonic::Response<"@ + res + ">, tonic::Status> {\n"@
}

/// The opening line of the generated method for `m`.
pub open spec fn method_signature(m: MethodModel, proto_path: Seq<char>) -> Seq<char> {
    signature(
        snake(m.identifier),
        type_ref(proto_path, m.request_type),
        type_ref(proto_path, m.response_type),
    )
}

/// A stub method that forwards the request to `action::<ident>::handler`.
pub open spec fn delegate_body(m: MethodModel, proto_path: Seq<char>) -> Seq<char> {
    method_signature(m, proto_path) + "    action::"@ + snake(m.identifier)
        + "::handler(request).await\n  }\n"@
}

/// The documentation text for comment lines.
pub open spec fn docs_text(comment: Seq<Seq<char>>) -> Seq<char> {
    lines_text(doc_lines(comment))
}

/// A stub method with its documentation.
pub open spec fn stub_entry(m: MethodModel, proto_path: Seq<char>) -> Seq<char> {
    docs_text(m.comment) + delegate_body(m, proto_path)
}

/// One stub method per method of the service, in declared order.
pub open spec fn stub_entries(s: ServiceModel, proto_path: Seq<char>) -> Seq<Seq<char>> {
    s.methods.map_values(|m: MethodModel| stub_entry(m, proto_path))
}

/// What precedes the stub methods: the documented stub type and the head of
/// its impl block.
pub open spec fn service_head(s: ServiceModel) -> Seq<char> {
    docs_text(s.comment) + "#[derive(Default)]\npub struct "@ + s.name
        + "Service {}\n\n#[tonic::async_trait]\nimpl "@ + s.name + " for "@ + s.name
        + "Service {\n"@
}

/// The service-stub fragment.
pub open spec fn service_text(s: ServiceModel, proto_path: Seq<char>) -> Seq<char> {
    service_head(s) + stub_entries(s, proto_path).flatten_alt() + "}\n"@
}

/// The codec construction step of a handler.
pub open spec fn codec_step(codec_path: Seq<char>) -> Seq<char> {
    "    let codec = "@ + codec_path + "::default();\n"@
}

/// The route construction step of a handler.
pub open spec fn path_step(path: Seq<char>) -> Seq<char> {
    "    let path = http::uri::PathAndQuery::from_static("@ + quoted_literal(path) + ");\n"@
}

/// A unary handler: readiness check, codec, route, then the one unary call.
pub open spec fn handler_body(m: MethodModel, proto_path: Seq<char>, path: Seq<char>) -> Seq<char> {
    method_signature(m, proto_path) + READY_STEP@ + codec_step(m.codec_path) + path_step(path)
        + CALL_STEP@
}

/// A handler with its documentation, routed within service `s`.
pub open spec fn handler_entry(s: ServiceModel, m: MethodModel, proto_path: Seq<char>) -> Seq<char> {
    docs_text(m.comment) + handler_body(m, proto_path, route(s.package, s.identifier, m.identifier))
}

/// The handlers fragment: one handler per method, in declared order.
pub open spec fn handlers_text(s: ServiceModel, proto_path: Seq<char>) -> Seq<char> {
    s.methods.map_values(|m: MethodModel| handler_entry(s, m, proto_path)).flatten_alt()
}

/// Checks that `m` can be generated.
pub fn check_method(m: &MethodDescription) -> (r: Result<(), GenError>)
    ensures
        r is Ok <==> method_error(m@) is None,
        r is Err ==> method_error(m@) == Some(r->Err_0),
{
    let shape = call_shape(m.client_streaming, m.server_streaming);
    if shape != CallShape::Unary {
        return Err(GenError::UnsupportedStreaming(shape));
    }
    if !parses_as_path(m.codec_path.as_str()) {
        return Err(GenError::InvalidCodecPath);
    }
    Ok(())
}

/// The documentation text for comment lines.
pub fn render_docs(comment: &Vec<String>) -> (r: String)
    ensures
        r@ == docs_text(texts(comment@)),
{
    let docs = propagate_comments(comment);
    let r = join_lines(&docs);
    assert(docs@.map_values(|l: String| l@) =~= doc_lines(texts(comment@)));
    r
}

fn render_signature(m: &MethodDescription, proto_path: &str) -> (r: String)
    ensures
        r@ == method_signature(m@, proto_path@),
{
    let ident = derive_identifier(m.identifier.as_str());
    let (req, res) = m.request_response_name(proto_path);
    let mut r = String::from_str("  async fn ");
    r.append(ident.as_str());
    r.append("(&mut self, request: impl tonic::IntoRequest<");
    r.append(req.as_str());
    r.append(">) -> Result<tonic::Response<");
    r.append(res.as_str());
    r.append(">, tonic::Status> {\n");
    r
}

/// The stub method for `m`: it forwards the request to the action handler
/// named after the method.
pub fn generate_each_method_for_service(m: &MethodDescription, proto_path: &str) -> (r: Result<String, GenError>)
    ensures
        r is Ok <==> method_error(m@) is None,
        r is Ok ==> r->Ok_0@ == delegate_body(m@, proto_path@),
        r is Err ==> method_error(m@) == Some(r->Err_0),
{
    check_method(m)?;
    let ident = derive_identifier(m.identifier.as_str());
    let mut r = render_signature(m, proto_path);
    r.append("    action::");
    r.append(ident.as_str());
    r.append("::handler(request).await\n  }\n");
    Ok(r)
}

/// The unary handler for `m`, dispatched on `path`: it checks readiness, builds
/// the codec and the route, then makes the one unary call.
pub fn generate_method_handler(m: &MethodDescription, proto_path: &str, path: &str) -> (r: Result<String, GenError>)
    ensures
        r is Ok <==> method_error(m@) is None,
        r is Ok ==> r->Ok_0@ == handler_body(m@, proto_path@, path@),
        r is Err ==> method_error(m@) == Some(r->Err_0),
{
    check_method(m)?;
    let mut r = render_signature(m, proto_path);
    r.append(READY_STEP);
    r.append("    let codec = ");
    r.append(m.codec_path.as_str());
    r.append("::default();\n");
    let lit = string_literal(path);
    r.append("    let path = http::uri::PathAndQuery::from_static(");
    r.append(lit.as_str());
    r.append(");\n");
    r.append(CALL_STEP);
    Ok(r)
}

/// The stub methods of the service, each with its documentation, in declared
/// order.
pub fn generate_methods(service: &ServiceDescription, proto_path: &str) -> (r: Result<String, GenError>)
    ensures
        r is Ok <==> first_error(service@.methods) is None,
        r is Ok ==> r->Ok_0@ == stub_entries(service@, proto_path@).flatten_alt(),
        r is Err ==> first_error(service@.methods) == Some(r->Err_0),
{
    let ghost ms = service@.methods;
    let ghost entries = stub_entries(service@, proto_path@);
    let mut out = String::new();
    let mut i: usize = 0;
    while i < service.methods.len()
        invariant
            i <= service.methods@.len(),
            ms == service@.methods,
            entries == stub_entries(service@, proto_path@),
            first_error(ms.subrange(0, i as int)) is None,
            out@ == entries.subrange(0, i as int).flatten_alt(),
        decreases service.methods@.len() - i,
    {
        let m = &service.methods[i];
        let ghost pre = ms.subrange(0, i as int);
        let ghost next = ms.subrange(0, i as int + 1);
        assert(next.drop_last() =~= pre);
        assert(ms[i as int] == m@);
        let body = match generate_each_method_for_service(m, proto_path) {
            Ok(b) => b,
            Err(e) => {
                proof {
                    lemma_first_error_extends(ms, i as int);
                }
                return Err(e);
            }
        };
        let docs = render_docs(&m.comment);
        out.append(docs.as_str());
        out.append(body.as_str());
        assert(entries.subrange(0, i as int + 1).drop_last() =~= entries.subrange(0, i as int));
        i = i + 1;
    }
    assert(ms.subrange(0, i as int) =~= ms);
    assert(entries.subrange(0, i as int) =~= entries);
    Ok(out)
}

/// Once the methods before `i` have no error, the first error is that of
/// method `i`, if it has one.
proof fn lemma_first_error_extends(ms: Seq<MethodModel>, i: int)
    requires
        0 <= i < ms.len(),
        first_error(ms.subrange(0, i)) is None,
        method_error(ms[i]) is Some,
    ensures
        first_error(ms) == method_error(ms[i]),
    decreases ms.len() - i,
{
    let next = ms.subrange(0, i + 1);
    assert(next.drop_last() =~= ms.subrange(0, i));
    if i + 1 < ms.len() {
        lemma_first_error_prefix(ms, i + 1);
    } else {
        assert(next =~= ms);
    }
}

/// An error among the first `i` methods is the first error of all of them.
proof fn lemma_first_error_prefix(ms: Seq<MethodModel>, i: int)
    requires
        0 < i <= ms.len(),
        first_error(ms.subrange(0, i)) is Some,
    ensures
        first_error(ms) == first_error(ms.subrange(0, i)),
    decreases ms.len() - i,
{
    if i == ms.len() {
        assert(ms.subrange(0, i) =~= ms);
    } else {
        let next = ms.subrange(0, i + 1);
        assert(next.drop_last() =~= ms.subrange(0, i));
        lemma_first_error_prefix(ms, i + 1);
    }
}

/// The service-stub fragment: a default-constructible stub type, documented
/// with the service's comments, that implements the service by forwarding each
/// method to its action handler.
pub fn generate_service(service: &ServiceDescription, proto_path: &str) -> (r: Result<String, GenError>)
    ensures
        r is Ok <==> first_error(service@.methods) is None,
        r is Ok ==> r->Ok_0@ == service_text(service@, proto_path@),
        r is Err ==> first_error(service@.methods) == Some(r->Err_0),
{
    let methods = generate_methods(service, proto_path)?;
    let mut r = render_docs(&service.comment);
    r.append("#[derive(Default)]\npub struct ");
    r.append(service.name.as_str());
    r.append("Service {}\n\n#[tonic::async_trait]\nimpl ");
    r.append(service.name.as_str());
    r.append(" for ");
    r.append(service.name.as_str());
    r.append("Service {\n");
    r.append(methods.as_str());
    r.append("}\n");
    Ok(r)
}

/// The handlers fragment: one documented unary handler per method, in declared
/// order, each dispatched on the method's route.
pub fn generate_file_for_each_method(service: &ServiceDescription, proto_path: &str) -> (r: Result<String, GenError>)
    requires
        service@.well_formed(),
    ensures
        r is Ok <==> first_error(service@.methods) is None,
        r is Ok ==> r->Ok_0@ == handlers_text(service@, proto_path@),
        r is Err ==> first_error(service@.methods) == Some(r->Err_0),
{
    let ghost ms = service@.methods;
    let ghost entries = service@.methods.map_values(|m: MethodModel| handler_entry(service@, m, proto_path@));
    let mut out = String::new();
    let mut i: usize = 0;
    while i < service.methods.len()
        invariant
            i <= service.methods@.len(),
            service@.well_formed(),
            ms == service@.methods,
            entries == service@.methods.map_values(|m: MethodModel| handler_entry(service@, m, proto_path@)),
            first_error(ms.subrange(0, i as int)) is None,
            out@ == entries.subrange(0, i as int).flatten_alt(),
        decreases service.methods@.len() - i,
    {
        let m = &service.methods[i];
        let ghost pre = ms.subrange(0, i as int);
        let ghost next = ms.subrange(0, i as int + 1);
        assert(next.drop_last() =~= pre);
        assert(ms[i as int] == m@);
        assert(m@.identifier.len() > 0);
        let path = derive_route(service.package.as_str(), service.identifier.as_str(), m.identifier.as_str());
        let body = match generate_method_handler(m, proto_path, path.as_str()) {
            Ok(b) => b,
            Err(e) => {
                proof {
                    lemma_first_error_extends(ms, i as int);
                }
                return Err(e);
            }
        };
        let docs = render_docs(&m.comment);
        out.append(docs.as_str());
        out.append(body.as_str());
        assert(entries.subrange(0, i as int + 1).drop_last() =~= entries.subrange(0, i as int));
        i = i + 1;
    }
    assert(ms.subrange(0, i as int) =~= ms);
    assert(entries.subrange(0, i as int) =~= entries);
    Ok(out)
}

/// The two generated artifacts: the service stub and the handlers.
pub struct GeneratedFiles {
    pub service: String,
    pub handlers: String,
}

/// Generates both artifacts of a service, or the error of its first method
/// that cannot be generated.
pub fn generate_files(service: &ServiceDescription, proto_path: &str) -> (r: Result<GeneratedFiles, GenError>)
    requires
        service@.well_formed(),
    ensures
        r is Ok <==> first_error(service@.methods) is None,
        r is Ok ==> r->Ok_0.service@ == service_text(service@, proto_path@),
        r is Ok ==> r->Ok_0.handlers@ == handlers_text(service@, proto_path@),
        r is Err ==> first_error(service@.methods) == Some(r->Err_0),
{
    let stub = generate_service(service, proto_path)?;
    let handlers = generate_file_for_each_method(service, proto_path)?;
    Ok(GeneratedFiles { service: stub, handlers })
}

/// The service stub holds exactly one forwarding method body per method of the
/// service, in the service's order, between the stub's head and its closing
/// brace.
pub proof fn lemma_one_body_per_method(s: ServiceModel, proto_path: Seq<char>)
    ensures
        stub_entries(s, proto_path).len() == s.methods.len(),
        forall|i: int|
            0 <= i < s.methods.len() ==> #[trigger] stub_entries(s, proto_path)[i] == docs_text(
                s.methods[i].comment,
            ) + delegate_body(s.methods[i], proto_path),
        service_text(s, proto_path) == service_head(s) + stub_entries(s, proto_path).flatten_alt()
            + "}\n"@,
{
}

/// Generation is a function of its input: the same description and namespace
/// give the same artifacts, byte for byte.
pub proof fn lemma_generation_deterministic(
    s1: ServiceModel,
    s2: ServiceModel,
    proto_path1: Seq<char>,
    proto_path2: Seq<char>,
)
    requires
        s1 == s2,
        proto_path1 == proto_path2,
    ensures
        first_error(s1.methods) == first_error(s2.methods),
        service_text(s1, proto_path1) == service_text(s2, proto_path2),
        handlers_text(s1, proto_path1) == handlers_text(s2, proto_path2),
{
}

/// A unary handler performs, in this order, the readiness check, the codec
/// construction, the route construction and the unary call, each at the
/// offset where the previous step ends.
pub proof fn lemma_unary_handler_steps(m: MethodModel, proto_path: Seq<char>, path: Seq<char>)
    ensures
        ({
            let body = handler_body(m, proto_path, path);
            let a = method_signature(m, proto_path).len();
            let b = a + READY_STEP@.len();
            let c = b + codec_step(m.codec_path).len();
            let d = c + path_step(path).len();
            &&& body.subrange(0, a as int) == method_signature(m, proto_path)
            &&& body.subrange(a as int, b as int) == READY_STEP@
            &&& body.subrange(b as int, c as int) == codec_step(m.codec_path)
            &&& body.subrange(c as int, d as int) == path_step(path)
            &&& body.subrange(d as int, body.len() as int) == CALL_STEP@
        }),
{
    let body = handler_body(m, proto_path, path);
    let sig = method_signature(m, proto_path);
    let a = sig.len();
    let b = a + READY_STEP@.len();
    let c = b + codec_step(m.codec_path).len();
    let d = c + path_step(path).len();
    assert(body.subrange(0, a as int) =~= sig);
    assert(body.subrange(a as int, b as int) =~= READY_STEP@);
    assert(body.subrange(b as int, c as int) =~= codec_step(m.codec_path));
    assert(body.subrange(c as int, d as int) =~= path_step(path));
    assert(body.subrange(d as int, body.len() as int) =~= CALL_STEP@);
}

/// A method that streams in either direction is refused with its call shape:
/// no unary body is generated for it.
pub proof fn lemma_streaming_refused(m: MethodModel)
    requires
        m.client_streaming || m.server_streaming,
    ensures
        method_error(m) == Some(GenError::UnsupportedStreaming(
            shape_of(m.client_streaming, m.server_streaming),
        )),
        shape_of(m.client_streaming, m.server_streaming) != CallShape::Unary,
{
}

} // verus!
