use overlay_shell::bridge::{
    on_message, plan_request, route_of, serialize_response, window_op_response, HostPaths,
    InboundMessage, Plan, Reaction, ResponseBody, ResponseEnvelope, Route, WindowOpKind,
};
use overlay_shell::envelope::parse_request;

fn paths() -> HostPaths {
    HostPaths {
        app_data: "data".to_string(),
        documents: "data".to_string(),
    }
}

fn parse(text: &str) -> overlay_shell::envelope::RequestEnvelope {
    parse_request(text).unwrap()
}

#[test]
fn parse_reads_url_and_correlation_id() {
    let env = parse("{\"url\":\"/engine\",\"correlationId\":\"abc-1\"}");
    assert_eq!(env.url, "/engine");
    assert_eq!(env.correlation_id.as_deref(), Some("abc-1"));
}

#[test]
fn parse_treats_null_correlation_id_as_absent() {
    let env = parse("{\"url\":\"/engine\",\"correlationId\":null}");
    assert_eq!(env.correlation_id, None);
    let env = parse("{\"url\":\"/engine\"}");
    assert_eq!(env.correlation_id, None);
}

#[test]
fn parse_rejects_bad_envelopes() {
    for text in [
        "{not json",
        "[1,2,3]",
        "{\"correlationId\":\"x\"}",
        "{\"url\":17}",
        "{\"url\":\"/engine\",\"correlationId\":7}",
        "\"just a string\"",
    ] {
        let err = parse_request(text).unwrap_err();
        assert!(
            err.starts_with("Invalid JSON format: "),
            "unexpected message: {err}"
        );
    }
}

#[test]
fn shape_errors_name_the_missing_field() {
    assert_eq!(
        parse_request("{\"correlationId\":\"x\"}").unwrap_err(),
        "Invalid JSON format: the url field is missing"
    );
    assert_eq!(
        parse_request("[true]").unwrap_err(),
        "Invalid JSON format: the url field is missing"
    );
    assert_eq!(
        parse_request("{\"url\":17}").unwrap_err(),
        "Invalid JSON format: the url field is not a string"
    );
    assert_eq!(
        parse_request("{\"url\":\"/engine\",\"correlationId\":[]}").unwrap_err(),
        "Invalid JSON format: the correlationId field is not a string or null"
    );
}

#[test]
fn route_table_matches_exactly() {
    assert_eq!(route_of("/paths"), Route::Paths);
    assert_eq!(route_of("/fs/file/write"), Route::FsWrite);
    assert_eq!(route_of("/window/maximize"), Route::WindowMaximize);
    assert_eq!(route_of("/window/minimize"), Route::WindowMinimize);
    assert_eq!(route_of("/window/restore"), Route::WindowRestore);
    assert_eq!(route_of("/window/unmaximize"), Route::WindowUnmaximize);
    assert_eq!(route_of("/engine"), Route::Engine);
    assert_eq!(route_of("/exit"), Route::Exit);
    assert_eq!(route_of("/fs/list"), Route::NotImplemented);
    assert_eq!(route_of("/dialog/open"), Route::NotImplemented);
    assert_eq!(route_of("/window/maximize/"), Route::Unhandled);
    assert_eq!(route_of("/nope"), Route::Unhandled);
    assert_eq!(route_of(""), Route::Unhandled);
}

#[test]
fn unknown_url_echoes_correlation_id() {
    let env = parse("{\"url\":\"/nope\",\"correlationId\":\"A\"}");
    match plan_request(env, &paths()) {
        Plan::Reply(resp) => {
            assert_eq!(resp.url, "/nope");
            assert_eq!(resp.correlation_id.as_deref(), Some("A"));
            assert_eq!(
                resp.body,
                ResponseBody::Error {
                    message: "Unhandled URL: /nope".to_string()
                }
            );
        }
        other => panic!("unexpected plan: {other:?}"),
    }
}

#[test]
fn unknown_url_echoes_absent_correlation_id() {
    let env = parse("{\"url\":\"/nope\"}");
    match plan_request(env, &paths()) {
        Plan::Reply(resp) => {
            assert_eq!(resp.correlation_id, None);
            assert!(matches!(resp.body, ResponseBody::Error { .. }));
        }
        other => panic!("unexpected plan: {other:?}"),
    }
}

#[test]
fn stub_route_answers_not_implemented() {
    let env = parse("{\"url\":\"/fs/list\",\"correlationId\":\"7\"}");
    match plan_request(env, &paths()) {
        Plan::Reply(resp) => {
            assert_eq!(resp.correlation_id.as_deref(), Some("7"));
            assert_eq!(
                resp.body,
                ResponseBody::Error {
                    message: "Feature not implemented: /fs/list".to_string()
                }
            );
        }
        other => panic!("unexpected plan: {other:?}"),
    }
}

#[test]
fn engine_probe_succeeds() {
    let env = parse("{\"url\":\"/engine\",\"correlationId\":\"e1\"}");
    match plan_request(env, &paths()) {
        Plan::Reply(resp) => {
            assert_eq!(resp.body, ResponseBody::Success);
            assert_eq!(resp.correlation_id.as_deref(), Some("e1"));
        }
        other => panic!("unexpected plan: {other:?}"),
    }
}

#[test]
fn paths_returns_host_locations() {
    let env = parse("{\"url\":\"/paths\"}");
    match plan_request(env, &paths()) {
        Plan::Reply(resp) => {
            assert_eq!(
                resp.body,
                ResponseBody::SuccessPaths {
                    app_data: "data".to_string(),
                    documents: "data".to_string()
                }
            );
            let wire = serialize_response(&resp);
            assert_eq!(
                wire,
                "{\"url\":\"/paths\",\"correlationId\":null,\"body\":{\"success\":true,\
                 \"data\":{\"appData\":\"data\",\"documents\":\"data\"}}}"
            );
        }
        other => panic!("unexpected plan: {other:?}"),
    }
}

#[test]
fn fs_write_validates_body() {
    let cases = [
        (
            "{\"url\":\"/fs/file/write\"}",
            "Missing request body for /fs/file/write",
        ),
        (
            "{\"url\":\"/fs/file/write\",\"body\":null}",
            "Missing request body for /fs/file/write",
        ),
        (
            "{\"url\":\"/fs/file/write\",\"body\":{}}",
            "Missing 'path' field in body",
        ),
        (
            "{\"url\":\"/fs/file/write\",\"body\":[1]}",
            "Missing 'path' field in body",
        ),
        (
            "{\"url\":\"/fs/file/write\",\"body\":{\"path\":5}}",
            "Missing 'path' field in body",
        ),
        (
            "{\"url\":\"/fs/file/write\",\"body\":{\"path\":\"a.txt\"}}",
            "Missing 'content' field in body",
        ),
        (
            "{\"url\":\"/fs/file/write\",\"body\":{\"path\":\"a.txt\",\"content\":3}}",
            "Missing 'content' field in body",
        ),
    ];
    for (text, expected) in cases {
        let env = parse(text);
        match plan_request(env, &paths()) {
            Plan::Reply(resp) => assert_eq!(
                resp.body,
                ResponseBody::Error {
                    message: expected.to_string()
                },
                "for input {text}"
            ),
            other => panic!("unexpected plan: {other:?}"),
        }
    }
    let env = parse("{\"url\":\"/fs/file/write\",\"body\":{\"path\":\"a.txt\",\"content\":\"hi\"}}");
    match plan_request(env, &paths()) {
        Plan::Reply(resp) => assert_eq!(resp.body, ResponseBody::Success),
        other => panic!("unexpected plan: {other:?}"),
    }
}

#[test]
fn window_ops_are_handed_to_the_host() {
    let env = parse("{\"url\":\"/window/maximize\",\"correlationId\":\"w1\"}");
    match plan_request(env, &paths()) {
        Plan::WindowOp {
            op,
            url,
            correlation_id,
        } => {
            assert_eq!(op, WindowOpKind::Maximize);
            let ok = window_op_response(url.clone(), correlation_id.clone(), Ok(()));
            assert_eq!(ok.body, ResponseBody::Success);
            assert_eq!(ok.correlation_id.as_deref(), Some("w1"));
            let err = window_op_response(
                url,
                correlation_id,
                Err("Main window not found".to_string()),
            );
            assert_eq!(
                err.body,
                ResponseBody::Error {
                    message: "Main window not found".to_string()
                }
            );
            assert_eq!(err.correlation_id.as_deref(), Some("w1"));
        }
        other => panic!("unexpected plan: {other:?}"),
    }
}

#[test]
fn exit_emits_success_response_before_termination() {
    let env = parse("{\"url\":\"/exit\",\"correlationId\":\"bye\"}");
    match plan_request(env, &paths()) {
        Plan::ReplyThenExit(resp) => {
            assert_eq!(resp.body, ResponseBody::Success);
            assert_eq!(resp.correlation_id.as_deref(), Some("bye"));
            // the response frame exists (and is written) before the host
            // may initiate termination
            let wire = serialize_response(&resp);
            assert_eq!(
                wire,
                "{\"url\":\"/exit\",\"correlationId\":\"bye\",\"body\":{\"success\":true}}"
            );
        }
        other => panic!("unexpected plan: {other:?}"),
    }
}

fn response_of(plan: Plan, outcome: Result<(), String>) -> ResponseEnvelope {
    match plan {
        Plan::Reply(resp) => resp,
        Plan::ReplyThenExit(resp) => resp,
        Plan::WindowOp {
            url,
            correlation_id,
            ..
        } => window_op_response(url, correlation_id, outcome),
    }
}

#[test]
fn concurrent_requests_each_get_their_own_response() {
    let text_a = "{\"url\":\"/engine\",\"correlationId\":\"A\"}";
    let text_b = "{\"url\":\"/window/restore\",\"correlationId\":\"B\"}";
    // completion order A then B, and B then A: each correlation id gets
    // exactly one response either way
    for reversed in [false, true] {
        let plan_a = plan_request(parse(text_a), &paths());
        let plan_b = plan_request(parse(text_b), &paths());
        let mut responses = Vec::new();
        if reversed {
            responses.push(response_of(plan_b, Ok(())));
            responses.push(response_of(plan_a, Ok(())));
        } else {
            responses.push(response_of(plan_a, Ok(())));
            responses.push(response_of(plan_b, Ok(())));
        }
        let with_a = responses
            .iter()
            .filter(|r| r.correlation_id.as_deref() == Some("A"))
            .count();
        let with_b = responses
            .iter()
            .filter(|r| r.correlation_id.as_deref() == Some("B"))
            .count();
        assert_eq!(with_a, 1);
        assert_eq!(with_b, 1);
    }
}

#[test]
fn malformed_json_yields_one_error_and_keeps_connection() {
    let reaction = on_message(
        InboundMessage::Text("{definitely not json".to_string()),
        &paths(),
    );
    match reaction {
        Reaction::ReplyError(resp) => {
            assert_eq!(resp.url, "unknown");
            assert_eq!(resp.correlation_id, None);
            match &resp.body {
                ResponseBody::Error { message } => {
                    assert!(message.starts_with("Invalid JSON format: "));
                }
                other => panic!("unexpected body: {other:?}"),
            }
        }
        other => panic!("unexpected reaction: {other:?}"),
    }
}

#[test]
fn control_frames_are_handled_immediately() {
    let pong = on_message(InboundMessage::Ping(vec![1, 2, 3]), &paths());
    assert_eq!(pong, Reaction::Pong(vec![1, 2, 3]));
    assert_eq!(
        on_message(InboundMessage::Binary(vec![9]), &paths()),
        Reaction::Ignore
    );
    assert_eq!(on_message(InboundMessage::Pong, &paths()), Reaction::Ignore);
    assert_eq!(
        on_message(InboundMessage::Close, &paths()),
        Reaction::CloseConnection
    );
}

#[test]
fn serializer_escapes_like_the_wire_format() {
    let resp = ResponseEnvelope {
        url: "with \"quotes\" and \\slash".to_string(),
        correlation_id: Some("line\nbreak\ttab \u{1} end".to_string()),
        body: ResponseBody::Error {
            message: "ctrl \u{8}\u{c}\r \u{1f} done".to_string(),
        },
    };
    let wire = serialize_response(&resp);
    assert_eq!(
        wire,
        "{\"url\":\"with \\\"quotes\\\" and \\\\slash\",\
         \"correlationId\":\"line\\nbreak\\ttab \\u0001 end\",\
         \"body\":{\"success\":false,\"error\":\"ctrl \\b\\f\\r \\u001f done\"}}"
    );
}

#[test]
fn serialized_responses_parse_back() {
    let resp = ResponseEnvelope {
        url: "/engine".to_string(),
        correlation_id: Some("id \"x\" \u{7}".to_string()),
        body: ResponseBody::Error {
            message: "why\nnot".to_string(),
        },
    };
    let wire = serialize_response(&resp);
    let value: serde_json::Value = serde_json::from_str(&wire).unwrap();
    assert_eq!(value["url"].as_str(), Some("/engine"));
    assert_eq!(value["correlationId"].as_str(), Some("id \"x\" \u{7}"));
    assert_eq!(value["body"]["success"].as_bool(), Some(false));
    assert_eq!(value["body"]["error"].as_str(), Some("why\nnot"));
}

#[test]
fn serializer_passes_unicode_through_unescaped() {
    let resp = ResponseEnvelope {
        url: "/état".to_string(),
        correlation_id: Some("übergreifend-∞".to_string()),
        body: ResponseBody::Success,
    };
    let wire = serialize_response(&resp);
    assert_eq!(
        wire,
        "{\"url\":\"/état\",\"correlationId\":\"übergreifend-∞\",\"body\":{\"success\":true}}"
    );
    let value: serde_json::Value = serde_json::from_str(&wire).unwrap();
    assert_eq!(value["correlationId"].as_str(), Some("übergreifend-∞"));
}

#[test]
fn dispatched_text_reaches_the_route_table() {
    let reaction = on_message(
        InboundMessage::Text("{\"url\":\"/engine\",\"correlationId\":\"z\"}".to_string()),
        &paths(),
    );
    match reaction {
        Reaction::Dispatch(Plan::Reply(resp)) => {
            assert_eq!(resp.url, "/engine");
            assert_eq!(resp.body, ResponseBody::Success);
        }
        other => panic!("unexpected reaction: {other:?}"),
    }
}
