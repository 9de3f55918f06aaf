use proto_code_gen::emit::{
    contents_if_not_exist, formatter_exit_code, get_abs_path_from_root, is_rust_source,
    with_header, GENERATED_CODE_HEADER,
};
use proto_code_gen::model::{call_shape, CallShape, MethodDescription, ServiceDescription};
use proto_code_gen::naming::{derive_identifier, derive_route, join_lines, propagate_comments};
use proto_code_gen::synth::{
    check_method, generate_each_method_for_service, generate_file_for_each_method, generate_files,
    generate_method_handler, generate_service, render_docs, GenError, CALL_STEP, READY_STEP,
};

fn method(name: &str, client: bool, server: bool, comment: &[&str]) -> MethodDescription {
    MethodDescription {
        name: derive_identifier(name),
        identifier: name.to_string(),
        client_streaming: client,
        server_streaming: server,
        comment: comment.iter().map(|c| c.to_string()).collect(),
        codec_path: "tonic::codec::ProstCodec".to_string(),
        request_type: format!("{}Request", name),
        response_type: format!("{}Reply", name),
    }
}

fn greeter(methods: Vec<MethodDescription>) -> ServiceDescription {
    ServiceDescription {
        name: "Greeter".to_string(),
        package: "greet".to_string(),
        identifier: "Greeter".to_string(),
        methods,
        comment: vec!["The greeting service.".to_string()],
    }
}

fn signature(ident: &str, name: &str) -> String {
    format!(
        "  async fn {}(&mut self, request: impl tonic::IntoRequest<crate::greet::{}Request>) -> Result<tonic::Response<crate::greet::{}Reply>, tonic::Status> {{\n",
        ident, name, name
    )
}

#[test]
fn it_works() {
    assert_eq!(2 + 2, 4);
}

#[test]
fn identifier_is_snake_case() {
    assert_eq!(derive_identifier("SayHello"), "say_hello");
    assert_eq!(derive_identifier("say_hello"), "say_hello");
    assert_eq!(derive_identifier("HTTPServer"), "h_t_t_p_server");
    assert_eq!(derive_identifier(""), "");
}

#[test]
fn identifier_folding_is_idempotent() {
    for name in ["SayHello", "HTTPServer", "already_snake", "Mixed_Case9X", "x"] {
        let once = derive_identifier(name);
        assert_eq!(derive_identifier(&once), once);
    }
}

#[test]
fn route_has_three_parts() {
    assert_eq!(derive_route("greet", "Greeter", "SayHello"), "/greet.Greeter/SayHello");
    assert_eq!(derive_route("a.b", "S", "m"), "/a.b.S/m");
}

#[test]
fn no_comments_give_no_documentation() {
    let docs = propagate_comments(&vec![]);
    assert!(docs.is_empty());
    assert_eq!(render_docs(&vec![]), "");
}

#[test]
fn comments_keep_their_order() {
    let docs = propagate_comments(&vec!["a".to_string(), "b".to_string()]);
    assert_eq!(docs, vec!["#[doc = \"a\"]".to_string(), "#[doc = \"b\"]".to_string()]);
    assert_eq!(join_lines(&docs), "#[doc = \"a\"]\n#[doc = \"b\"]\n");
}

#[test]
fn comment_text_is_escaped() {
    let docs = propagate_comments(&vec!["say \"hi\"".to_string()]);
    assert_eq!(docs, vec!["#[doc = \"say \\\"hi\\\"\"]".to_string()]);
}

#[test]
fn call_shapes() {
    assert_eq!(call_shape(false, false), CallShape::Unary);
    assert_eq!(call_shape(false, true), CallShape::ServerStreaming);
    assert_eq!(call_shape(true, false), CallShape::ClientStreaming);
    assert_eq!(call_shape(true, true), CallShape::Bidirectional);
}

#[test]
fn streaming_methods_are_refused() {
    assert_eq!(
        check_method(&method("Chat", true, true, &[])),
        Err(GenError::UnsupportedStreaming(CallShape::Bidirectional))
    );
    assert_eq!(
        generate_method_handler(&method("Feed", false, true, &[]), "crate::greet", "/greet.Greeter/Feed"),
        Err(GenError::UnsupportedStreaming(CallShape::ServerStreaming))
    );
    assert_eq!(
        generate_each_method_for_service(&method("Upload", true, false, &[]), "crate::greet"),
        Err(GenError::UnsupportedStreaming(CallShape::ClientStreaming))
    );
    let svc = greeter(vec![method("SayHello", false, false, &[]), method("Chat", true, true, &[])]);
    assert_eq!(
        generate_file_for_each_method(&svc, "crate::greet"),
        Err(GenError::UnsupportedStreaming(CallShape::Bidirectional))
    );
    assert!(generate_files(&svc, "crate::greet").is_err());
}

#[test]
fn malformed_codec_path_is_refused() {
    let mut m = method("SayHello", false, false, &[]);
    m.codec_path = "not a path!".to_string();
    assert_eq!(check_method(&m), Err(GenError::InvalidCodecPath));
    assert_eq!(generate_service(&greeter(vec![m]), "crate::greet"), Err(GenError::InvalidCodecPath));
    assert_eq!(check_method(&method("SayHello", false, false, &[])), Ok(()));
}

#[test]
fn unary_handler_text() {
    let m = method("SayHello", false, false, &[]);
    let text = generate_method_handler(&m, "crate::greet", "/greet.Greeter/SayHello").unwrap();
    let expected = format!(
        "{}{}    let codec = tonic::codec::ProstCodec::default();\n    let path = http::uri::PathAndQuery::from_static(\"/greet.Greeter/SayHello\");\n{}",
        signature("say_hello", "SayHello"),
        READY_STEP,
        CALL_STEP
    );
    assert_eq!(text, expected);
}

#[test]
fn unary_handler_steps_in_order() {
    let m = method("SayHello", false, false, &[]);
    let text = generate_method_handler(&m, "crate::greet", "/greet.Greeter/SayHello").unwrap();
    let ready = text.find("self.inner.ready()").unwrap();
    let codec = text.find("let codec = tonic::codec::ProstCodec::default();").unwrap();
    let path = text.find("PathAndQuery::from_static(\"/greet.Greeter/SayHello\")").unwrap();
    let call = text.find("self.inner.unary(").unwrap();
    assert!(ready < codec && codec < path && path < call);
    assert_eq!(text.matches("self.inner.unary(").count(), 1);
}

#[test]
fn stub_method_forwards_to_action() {
    let m = method("SayHello", false, false, &[]);
    let text = generate_each_method_for_service(&m, "crate::greet").unwrap();
    let expected = format!(
        "{}    action::say_hello::handler(request).await\n  }}\n",
        signature("say_hello", "SayHello")
    );
    assert_eq!(text, expected);
}

#[test]
fn service_stub_has_one_body_per_method_in_order() {
    let svc = greeter(vec![
        method("SayHello", false, false, &["Greets."]),
        method("SayBye", false, false, &[]),
    ]);
    let text = generate_service(&svc, "crate::greet").unwrap();
    let expected = format!(
        "#[doc = \"The greeting service.\"]\n#[derive(Default)]\npub struct GreeterService {{}}\n\n#[tonic::async_trait]\nimpl Greeter for GreeterService {{\n#[doc = \"Greets.\"]\n{}    action::say_hello::handler(request).await\n  }}\n{}    action::say_bye::handler(request).await\n  }}\n}}\n",
        signature("say_hello", "SayHello"),
        signature("say_bye", "SayBye")
    );
    assert_eq!(text, expected);
    assert_eq!(text.matches("::handler(request)").count(), 2);
    assert!(text.find("action::say_hello").unwrap() < text.find("action::say_bye").unwrap());
}

#[test]
fn service_without_methods() {
    let svc = greeter(vec![]);
    let files = generate_files(&svc, "crate::greet").unwrap();
    assert_eq!(files.handlers, "");
    assert!(files.service.ends_with("impl Greeter for GreeterService {\n}\n"));
}

#[test]
fn handlers_are_routed_per_method() {
    let svc = greeter(vec![
        method("SayHello", false, false, &[]),
        method("SayBye", false, false, &["Leaves."]),
    ]);
    let text = generate_file_for_each_method(&svc, "crate::greet").unwrap();
    let hello = text.find("\"/greet.Greeter/SayHello\"").unwrap();
    let doc = text.find("#[doc = \"Leaves.\"]\n").unwrap();
    let bye = text.find("\"/greet.Greeter/SayBye\"").unwrap();
    assert!(hello < doc && doc < bye);
}

#[test]
fn generation_is_deterministic() {
    let svc = greeter(vec![method("SayHello", false, false, &["x"]), method("SayBye", false, false, &[])]);
    let a = generate_files(&svc, "crate::greet").unwrap();
    let b = generate_files(&svc, "crate::greet").unwrap();
    assert_eq!(a.service, b.service);
    assert_eq!(a.handlers, b.handlers);
}

#[test]
fn header_defaults_to_banner() {
    assert_eq!(
        GENERATED_CODE_HEADER,
        "// This file is generated using \"proto-code-gen\".\n// DO NOT EDIT BY HAND!!\n"
    );
    assert_eq!(with_header("fn f() {}", None), format!("{}fn f() {{}}", GENERATED_CODE_HEADER));
    assert_eq!(with_header("fn f() {}", Some("// mine\n")), "// mine\nfn f() {}");
}

#[test]
fn existing_file_is_left_alone() {
    assert_eq!(contents_if_not_exist(true, "fn f() {}", None), None);
    assert_eq!(contents_if_not_exist(true, "fn f() {}", Some("// h\n")), None);
    assert_eq!(contents_if_not_exist(false, "fn f() {}", Some("// h\n")), Some("// h\nfn f() {}".to_string()));
}

#[test]
fn paths_and_formatter_rules() {
    assert_eq!(get_abs_path_from_root("/work/proj", "src/service.rs"), "/work/proj/src/service.rs");
    assert!(is_rust_source("service.rs"));
    assert!(is_rust_source(".rs"));
    assert!(!is_rust_source("notes.txt"));
    assert!(!is_rust_source("rs"));
    assert!(!is_rust_source("a.rsx"));
    assert_eq!(formatter_exit_code(Some(3)), 3);
    assert_eq!(formatter_exit_code(None), 1);
}
