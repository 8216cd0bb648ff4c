//! Command bridge: routes parsed request envelopes to named handlers and
//! builds the correlated responses, including their JSON wire form.

use crate::envelope::{
    envelope_fields, has_malformed_prefix, parse_request, parsed_doc, value_as_str, value_get,
    value_is_null, value_rep, EnvelopeModel, RequestEnvelope,
};
use crate::json::{append_json_string, json_string, JsonModel};
use vstd::prelude::*;
use vstd::string::StringExecFns;

verus! {

/// The named handlers of the route table, plus the two catch-all outcomes:
/// a stub route answered "not implemented", and an unhandled route.
#[derive(Clone, Copy, PartialEq, Eq, Structural, Debug)]
pub enum Route {
    Paths,
    FsWrite,
    WindowMaximize,
    WindowMinimize,
    WindowRestore,
    WindowUnmaximize,
    Engine,
    Exit,
    NotImplemented,
    Unhandled,
}

/// The stub routes: accepted by the table and answered with a
/// "not implemented" error response.
pub open spec fn is_stub_route(url: Seq<char>) -> bool {
    ||| url == "/fs/file/read"@
    ||| url == "/fs/file/read/binary"@
    ||| url == "/fs/folder/create"@
    ||| url == "/window/request-attention"@
    ||| url == "/dialog/folder"@
    ||| url == "/dialog/open"@
    ||| url == "/dialog/save"@
    ||| url == "/window/set-always-on-top"@
    ||| url == "/window/set-height"@
    ||| url == "/window/set-maximum-size"@
    ||| url == "/window/set-minimum-size"@
    ||| url == "/window/set-resizable"@
    ||| url == "/window/set-title"@
    ||| url == "/window/set-width"@
    ||| url == "/window/set-x"@
    ||| url == "/window/set-y"@
    ||| url == "/window/show-dev-tools"@
    ||| url == "/window/set-fullscreen"@
    ||| url == "/open"@
    ||| url == "/show-in-explorer"@
    ||| url == "/run"@
    ||| url == "/fs/copy"@
    ||| url == "/fs/delete"@
    ||| url == "/fs/exist"@
    ||| url == "/fs/list"@
    ||| url == "/fs/file/size"@
    ||| url == "/fs/move"@
    ||| url == "/steam/raw"@
    ||| url == "/discord/set-activity"@
    ||| url == "/infos"@
}

/// The route table: exact string match on the request url.
pub open spec fn route_spec(url: Seq<char>) -> Route {
    if url == "/paths"@ {
        Route::Paths
    } else if url == "/fs/file/write"@ {
        Route::FsWrite
    } else if url == "/window/maximize"@ {
        Route::WindowMaximize
    } else if url == "/window/minimize"@ {
        Route::WindowMinimize
    } else if url == "/window/restore"@ {
        Route::WindowRestore
    } else if url == "/window/unmaximize"@ {
        Route::WindowUnmaximize
    } else if url == "/engine"@ {
        Route::Engine
    } else if url == "/exit"@ {
        Route::Exit
    } else if is_stub_route(url) {
        Route::NotImplemented
    } else {
        Route::Unhandled
    }
}

/// Whether two strings hold the same characters.
fn text_eq(a: &str, b: &str) -> (r: bool)
    ensures
        r == (a@ == b@),
{
    let owned_a: String = a.to_owned();
    let owned_b: String = b.to_owned();
    owned_a == owned_b
}

/// Whether the url is one of the stub routes.
fn is_stub(url: &str) -> (r: bool)
    ensures
        r == is_stub_route(url@),
{
    text_eq(url, "/fs/file/read")
        || text_eq(url, "/fs/file/read/binary")
        || text_eq(url, "/fs/folder/create")
        || text_eq(url, "/window/request-attention")
        || text_eq(url, "/dialog/folder")
        || text_eq(url, "/dialog/open")
        || text_eq(url, "/dialog/save")
        || text_eq(url, "/window/set-always-on-top")
        || text_eq(url, "/window/set-height")
        || text_eq(url, "/window/set-maximum-size")
        || text_eq(url, "/window/set-minimum-size")
        || text_eq(url, "/window/set-resizable")
        || text_eq(url, "/window/set-title")
        || text_eq(url, "/window/set-width")
        || text_eq(url, "/window/set-x")
        || text_eq(url, "/window/set-y")
        || text_eq(url, "/window/show-dev-tools")
        || text_eq(url, "/window/set-fullscreen")
        || text_eq(url, "/open")
        || text_eq(url, "/show-in-explorer")
        || text_eq(url, "/run")
        || text_eq(url, "/fs/copy")
        || text_eq(url, "/fs/delete")
        || text_eq(url, "/fs/exist")
        || text_eq(url, "/fs/list")
        || text_eq(url, "/fs/file/size")
        || text_eq(url, "/fs/move")
        || text_eq(url, "/steam/raw")
        || text_eq(url, "/discord/set-activity")
        || text_eq(url, "/infos")
}

/// Looks the url up in the route table.
pub fn route_of(url: &str) -> (r: Route)
    ensures
        r == route_spec(url@),
{
    if text_eq(url, "/paths") {
        Route::Paths
    } else if text_eq(url, "/fs/file/write") {
        Route::FsWrite
    } else if text_eq(url, "/window/maximize") {
        Route::WindowMaximize
    } else if text_eq(url, "/window/minimize") {
        Route::WindowMinimize
    } else if text_eq(url, "/window/restore") {
        Route::WindowRestore
    } else if text_eq(url, "/window/unmaximize") {
        Route::WindowUnmaximize
    } else if text_eq(url, "/engine") {
        Route::Engine
    } else if text_eq(url, "/exit") {
        Route::Exit
    } else if is_stub(url) {
        Route::NotImplemented
    } else {
        Route::Unhandled
    }
}

/// The host data and documents locations the /paths handler reports.
pub struct HostPaths {
    pub app_data: String,
    pub documents: String,
}

/// Spec-level view of the host paths.
pub struct PathsModel {
    pub app_data: Seq<char>,
    pub documents: Seq<char>,
}

impl View for HostPaths {
    type V = PathsModel;

    open spec fn view(&self) -> PathsModel {
        PathsModel { app_data: self.app_data@, documents: self.documents@ }
    }
}

/// The body of a response: a bare success, the /paths payload, or an
/// error with its message.
#[derive(Debug, Clone, PartialEq, Eq)]
pub enum ResponseBody {
    Success,
    SuccessPaths { app_data: String, documents: String },
    Error { message: String },
}

/// Spec-level view of a response body.
pub enum BodyModel {
    Success,
    SuccessPaths { app_data: Seq<char>, documents: Seq<char> },
    Error { message: Seq<char> },
}

impl View for ResponseBody {
    type V = BodyModel;

    open spec fn view(&self) -> BodyModel {
        match self {
            ResponseBody::Success => BodyModel::Success,
            ResponseBody::SuccessPaths { app_data, documents } => BodyModel::SuccessPaths {
                app_data: app_data@,
                documents: documents@,
            },
            ResponseBody::Error { message } => BodyModel::Error { message: message@ },
        }
    }
}

/// One response to one request: the echoed route, the echoed correlation
/// id (absence included), and the body.
#[derive(Debug, Clone, PartialEq, Eq)]
pub struct ResponseEnvelope {
    pub url: String,
    pub correlation_id: Option<String>,
    pub body: ResponseBody,
}

/// Spec-level view of a response envelope.
pub struct ResponseModel {
    pub url: Seq<char>,
    pub correlation_id: Option<Seq<char>>,
    pub body: BodyModel,
}

/// The view of an optional text.
pub open spec fn opt_text(o: Option<String>) -> Option<Seq<char>> {
    match o {
        Some(s) => Some(s@),
        None => None,
    }
}

impl View for ResponseEnvelope {
    type V = ResponseModel;

    open spec fn view(&self) -> ResponseModel {
        ResponseModel {
            url: self.url@,
            correlation_id: opt_text(self.correlation_id),
            body: self.body@,
        }
    }
}

/// The window operations the host performs on behalf of the bridge.
#[derive(Clone, Copy, PartialEq, Eq, Structural, Debug)]
pub enum WindowOpKind {
    Maximize,
    Minimize,
    Restore,
    Unmaximize,
}

/// What the bridge decided for one parsed request.
#[derive(Debug, Clone, PartialEq, Eq)]
pub enum Plan {
    /// The response is ready; write it to the connection.
    Reply(ResponseEnvelope),
    /// The host must perform the window operation first; the response is
    /// then built from its outcome with `window_op_response`.
    WindowOp { op: WindowOpKind, url: String, correlation_id: Option<String> },
    /// Write the response, then initiate process termination.
    ReplyThenExit(ResponseEnvelope),
}

/// Spec-level view of a plan.
pub enum PlanModel {
    Reply(ResponseModel),
    WindowOp { op: WindowOpKind, url: Seq<char>, correlation_id: Option<Seq<char>> },
    ReplyThenExit(ResponseModel),
}

impl View for Plan {
    type V = PlanModel;

    open spec fn view(&self) -> PlanModel {
        match self {
            Plan::Reply(resp) => PlanModel::Reply(resp@),
            Plan::WindowOp { op, url, correlation_id } => PlanModel::WindowOp {
                op: *op,
                url: url@,
                correlation_id: opt_text(*correlation_id),
            },
            Plan::ReplyThenExit(resp) => PlanModel::ReplyThenExit(resp@),
        }
    }
}

/// The body of the /fs/file/write response: the request document must
/// carry a non-null "body" object with string "path" and "content" fields;
/// the first missing piece is reported, else the write is acknowledged.
pub open spec fn fs_write_body(doc: JsonModel) -> BodyModel {
    if !(doc is Obj) || !doc->Obj_0.dom().contains("body"@) || doc->Obj_0["body"@] is Null {
        BodyModel::Error { message: "Missing request body for /fs/file/write"@ }
    } else {
        let body = doc->Obj_0["body"@];
        if !(body is Obj) || !body->Obj_0.dom().contains("path"@) || !(body->Obj_0["path"@]
            is Str) {
            BodyModel::Error { message: "Missing 'path' field in body"@ }
        } else if !body->Obj_0.dom().contains("content"@) || !(body->Obj_0["content"@] is Str) {
            BodyModel::Error { message: "Missing 'content' field in body"@ }
        } else {
            BodyModel::Success
        }
    }
}

/// The plan for one parsed request: handlers echo the url and correlation
/// id; stub and unknown routes get error replies; window operations are
/// handed to the host; /exit pairs its success reply with termination.
pub open spec fn bridge_plan(req: EnvelopeModel, paths: PathsModel) -> PlanModel {
    match route_spec(req.url) {
        Route::Paths => PlanModel::Reply(
            ResponseModel {
                url: req.url,
                correlation_id: req.correlation_id,
                body: BodyModel::SuccessPaths {
                    app_data: paths.app_data,
                    documents: paths.documents,
                },
            },
        ),
        Route::FsWrite => PlanModel::Reply(
            ResponseModel {
                url: req.url,
                correlation_id: req.correlation_id,
                body: fs_write_body(req.doc),
            },
        ),
        Route::WindowMaximize => PlanModel::WindowOp {
            op: WindowOpKind::Maximize,
            url: req.url,
            correlation_id: req.correlation_id,
        },
        Route::WindowMinimize => PlanModel::WindowOp {
            op: WindowOpKind::Minimize,
            url: req.url,
            correlation_id: req.correlation_id,
        },
        Route::WindowRestore => PlanModel::WindowOp {
            op: WindowOpKind::Restore,
            url: req.url,
            correlation_id: req.correlation_id,
        },
        Route::WindowUnmaximize => PlanModel::WindowOp {
            op: WindowOpKind::Unmaximize,
            url: req.url,
            correlation_id: req.correlation_id,
        },
        Route::Engine => PlanModel::Reply(
            ResponseModel {
                url: req.url,
                correlation_id: req.correlation_id,
                body: BodyModel::Success,
            },
        ),
        Route::Exit => PlanModel::ReplyThenExit(
            ResponseModel {
                url: req.url,
                correlation_id: req.correlation_id,
                body: BodyModel::Success,
            },
        ),
        Route::NotImplemented => PlanModel::Reply(
            ResponseModel {
                url: req.url,
                correlation_id: req.correlation_id,
                body: BodyModel::Error { message: "Feature not implemented: "@ + req.url },
            },
        ),
        Route::Unhandled => PlanModel::Reply(
            ResponseModel {
                url: req.url,
                correlation_id: req.correlation_id,
                body: BodyModel::Error { message: "Unhandled URL: "@ + req.url },
            },
        ),
    }
}

/// Validates the body of a /fs/file/write request against the document,
/// reporting the first missing piece exactly as the route table's
/// filesystem handler does.
fn fs_write_response_body(doc: &serde_json::Value) -> (b: ResponseBody)
    ensures
        b@ == fs_write_body(value_rep(*doc)),
{
    let bv: &serde_json::Value = match value_get(doc, "body") {
        Some(bv) => bv,
        None => {
            return ResponseBody::Error {
                message: String::from_str("Missing request body for /fs/file/write"),
            };
        },
    };
    if value_is_null(bv) {
        return ResponseBody::Error {
            message: String::from_str("Missing request body for /fs/file/write"),
        };
    }
    let pv: &serde_json::Value = match value_get(bv, "path") {
        Some(pv) => pv,
        None => {
            return ResponseBody::Error {
                message: String::from_str("Missing 'path' field in body"),
            };
        },
    };
    if value_as_str(pv).is_none() {
        return ResponseBody::Error { message: String::from_str("Missing 'path' field in body") };
    }
    let cv: &serde_json::Value = match value_get(bv, "content") {
        Some(cv) => cv,
        None => {
            return ResponseBody::Error {
                message: String::from_str("Missing 'content' field in body"),
            };
        },
    };
    if value_as_str(cv).is_none() {
        return ResponseBody::Error {
            message: String::from_str("Missing 'content' field in body"),
        };
    }
    ResponseBody::Success
}

/// Decides what to do with one parsed request.
pub fn plan_request(env: RequestEnvelope, paths: &HostPaths) -> (p: Plan)
    ensures
        p@ == bridge_plan(env@, paths@),
{
    match route_of(env.url.as_str()) {
        Route::Paths => Plan::Reply(
            ResponseEnvelope {
                url: env.url,
                correlation_id: env.correlation_id,
                body: ResponseBody::SuccessPaths {
                    app_data: paths.app_data.clone(),
                    documents: paths.documents.clone(),
                },
            },
        ),
        Route::FsWrite => {
            let body = fs_write_response_body(&env.doc);
            Plan::Reply(
                ResponseEnvelope { url: env.url, correlation_id: env.correlation_id, body },
            )
        },
        Route::WindowMaximize => Plan::WindowOp {
            op: WindowOpKind::Maximize,
            url: env.url,
            correlation_id: env.correlation_id,
        },
        Route::WindowMinimize => Plan::WindowOp {
            op: WindowOpKind::Minimize,
            url: env.url,
            correlation_id: env.correlation_id,
        },
        Route::WindowRestore => Plan::WindowOp {
            op: WindowOpKind::Restore,
            url: env.url,
            correlation_id: env.correlation_id,
        },
        Route::WindowUnmaximize => Plan::WindowOp {
            op: WindowOpKind::Unmaximize,
            url: env.url,
            correlation_id: env.correlation_id,
        },
        Route::Engine => Plan::Reply(
            ResponseEnvelope {
                url: env.url,
                correlation_id: env.correlation_id,
                body: ResponseBody::Success,
            },
        ),
        Route::Exit => Plan::ReplyThenExit(
            ResponseEnvelope {
                url: env.url,
                correlation_id: env.correlation_id,
                body: ResponseBody::Success,
            },
        ),
        Route::NotImplemented => {
            let message = String::from_str("Feature not implemented: ").concat(env.url.as_str());
            Plan::Reply(
                ResponseEnvelope {
                    url: env.url,
                    correlation_id: env.correlation_id,
                    body: ResponseBody::Error { message },
                },
            )
        },
        Route::Unhandled => {
            let message = String::from_str("Unhandled URL: ").concat(env.url.as_str());
            Plan::Reply(
                ResponseEnvelope {
                    url: env.url,
                    correlation_id: env.correlation_id,
                    body: ResponseBody::Error { message },
                },
            )
        },
    }
}

/// The response the host's outcome of a window operation is turned into:
/// success acknowledges, a failure text is echoed as the error.
pub open spec fn window_reply(
    url: Seq<char>,
    correlation_id: Option<Seq<char>>,
    outcome: Result<(), Seq<char>>,
) -> ResponseModel {
    ResponseModel {
        url,
        correlation_id,
        body: match outcome {
            Ok(_) => BodyModel::Success,
            Err(e) => BodyModel::Error { message: e },
        },
    }
}

/// Spec-level view of a window-operation outcome.
pub open spec fn outcome_text(o: Result<(), String>) -> Result<(), Seq<char>> {
    match o {
        Ok(_) => Ok(()),
        Err(e) => Err(e@),
    }
}

/// Builds the single response for a window operation the host performed
/// (or could not perform: a missing main window or a platform error is
/// reported as the error text).
pub fn window_op_response(
    url: String,
    correlation_id: Option<String>,
    outcome: Result<(), String>,
) -> (r: ResponseEnvelope)
    ensures
        r@ == window_reply(url@, opt_text(correlation_id), outcome_text(outcome)),
{
    let body = match outcome {
        Ok(_) => ResponseBody::Success,
        Err(e) => ResponseBody::Error { message: e },
    };
    ResponseEnvelope { url, correlation_id, body }
}

/// The serialized form of a response body.
pub open spec fn body_json(b: BodyModel) -> Seq<char> {
    match b {
        BodyModel::Success => "{\"success\":true}"@,
        BodyModel::SuccessPaths { app_data, documents } => "{\"success\":true,\"data\":{\"appData\":"@
            + json_string(app_data) + ",\"documents\":"@ + json_string(documents) + "}}"@,
        BodyModel::Error { message } => "{\"success\":false,\"error\":"@ + json_string(message)
            + "}"@,
    }
}

/// The wire form of a response envelope, field order fixed: url,
/// correlationId (null when absent), body.
pub open spec fn response_json(r: ResponseModel) -> Seq<char> {
    "{\"url\":"@ + json_string(r.url) + ",\"correlationId\":"@ + (match r.correlation_id {
        Some(c) => json_string(c),
        None => "null"@,
    }) + ",\"body\":"@ + body_json(r.body) + "}"@
}

/// Serializes a response envelope to its JSON wire form.
pub fn serialize_response(r: &ResponseEnvelope) -> (out: String)
    ensures
        out@ == response_json(r@),
{
    let mut out = String::new();
    out.append("{\"url\":");
    append_json_string(&mut out, r.url.as_str());
    out.append(",\"correlationId\":");
    match &r.correlation_id {
        Some(c) => append_json_string(&mut out, c.as_str()),
        None => out.append("null"),
    };
    out.append(",\"body\":");
    match &r.body {
        ResponseBody::Success => {
            out.append("{\"success\":true}");
        },
        ResponseBody::SuccessPaths { app_data, documents } => {
            out.append("{\"success\":true,\"data\":{\"appData\":");
            append_json_string(&mut out, app_data.as_str());
            out.append(",\"documents\":");
            append_json_string(&mut out, documents.as_str());
            out.append("}}");
        },
        ResponseBody::Error { message } => {
            out.append("{\"success\":false,\"error\":");
            append_json_string(&mut out, message.as_str());
            out.append("}");
        },
    };
    out.append("}");
    proof {
        assert(out@ =~= response_json(r@));
    }
    out
}

/// One inbound control-channel message, as the connection loop sees it.
#[derive(Debug, Clone, PartialEq, Eq)]
pub enum InboundMessage {
    /// A text frame: a candidate request envelope.
    Text(String),
    /// A binary frame: logged and ignored.
    Binary(Vec<u8>),
    /// A ping control frame with its payload.
    Ping(Vec<u8>),
    /// A pong control frame.
    Pong,
    /// A close frame.
    Close,
}

/// What the connection loop does with one inbound message.
#[derive(Debug, Clone, PartialEq, Eq)]
pub enum Reaction {
    /// Dispatch the plan as its own concurrent unit of work.
    Dispatch(Plan),
    /// Write this error response immediately (the text did not parse).
    ReplyError(ResponseEnvelope),
    /// Answer with a pong carrying the same payload, ahead of pending
    /// dispatches.
    Pong(Vec<u8>),
    /// Nothing to write.
    Ignore,
    /// Stop reading; the connection is done.
    CloseConnection,
}

/// The malformed-input reply: route "unknown", no correlation id, an error
/// body whose text starts with the malformed-input prefix.
pub open spec fn is_malformed_reply(r: ResponseModel) -> bool {
    &&& r.url == "unknown"@
    &&& r.correlation_id is None
    &&& r.body is Error
    &&& has_malformed_prefix(r.body->Error_message)
}

/// Reacts to one inbound message: a text that parses is dispatched; a text
/// that does not parse is answered with exactly one malformed-input error
/// reply and the connection stays open; pings are answered immediately;
/// binary frames and pongs are ignored; a close frame ends the reading
/// side.
pub fn on_message(msg: InboundMessage, paths: &HostPaths) -> (r: Reaction)
    ensures
        msg matches InboundMessage::Text(t) ==> (if parsed_doc(t@) is Some && envelope_fields(
            parsed_doc(t@)->Some_0,
        ) is Some {
            let fields = envelope_fields(parsed_doc(t@)->Some_0)->Some_0;
            r matches Reaction::Dispatch(p) && p@ == bridge_plan(
                EnvelopeModel {
                    url: fields.0,
                    correlation_id: fields.1,
                    doc: parsed_doc(t@)->Some_0,
                },
                paths@,
            )
        } else {
            r matches Reaction::ReplyError(resp) && is_malformed_reply(resp@)
        }),
        msg is Binary ==> r is Ignore,
        msg matches InboundMessage::Ping(d) ==> (r matches Reaction::Pong(d2) && d2@ == d@),
        msg is Pong ==> r is Ignore,
        msg is Close ==> r is CloseConnection,
{
    match msg {
        InboundMessage::Text(t) => match parse_request(t.as_str()) {
            Ok(env) => Reaction::Dispatch(plan_request(env, paths)),
            Err(e) => Reaction::ReplyError(
                ResponseEnvelope {
                    url: String::from_str("unknown"),
                    correlation_id: None,
                    body: ResponseBody::Error { message: e },
                },
            ),
        },
        InboundMessage::Binary(_) => Reaction::Ignore,
        InboundMessage::Ping(d) => Reaction::Pong(d),
        InboundMessage::Pong => Reaction::Ignore,
        InboundMessage::Close => Reaction::CloseConnection,
    }
}

/// The single response that handling a plan produces: an immediate reply
/// carries its own response; a window operation's response is built from
/// the host's outcome.
pub open spec fn response_of(p: PlanModel, outcome: Result<(), Seq<char>>) -> ResponseModel {
    match p {
        PlanModel::Reply(r) => r,
        PlanModel::ReplyThenExit(r) => r,
        PlanModel::WindowOp { op, url, correlation_id } => window_reply(
            url,
            correlation_id,
            outcome,
        ),
    }
}

/// Law: every dispatched request produces exactly one response, and that
/// response echoes the request's url and correlation id (an absent id
/// included), whatever the route and — for window operations — whatever
/// the host reported back. Responses of concurrent requests may arrive in
/// any order; this is what lets a caller match them by correlation id.
pub proof fn lemma_one_response_per_request(
    req: EnvelopeModel,
    paths: PathsModel,
    outcome: Result<(), Seq<char>>,
)
    ensures
        response_of(bridge_plan(req, paths), outcome).url == req.url,
        response_of(bridge_plan(req, paths), outcome).correlation_id == req.correlation_id,
{
}

/// Law: a request whose url is not in the route table is answered with a
/// single error response (`success:false`) that echoes the url and the
/// correlation id, an absent id included.
pub proof fn lemma_unknown_url_error_response(req: EnvelopeModel, paths: PathsModel)
    requires
        route_spec(req.url) == Route::Unhandled,
    ensures
        ({
            let p = bridge_plan(req, paths);
            &&& p is Reply
            &&& p->Reply_0.body is Error
            &&& p->Reply_0.url == req.url
            &&& p->Reply_0.correlation_id == req.correlation_id
        }),
{
}

/// Law: the plan for an /exit request pairs the success response with the
/// termination action: the response exists — and is written — before
/// termination is initiated, and it echoes the correlation id.
pub proof fn lemma_exit_response_precedes_termination(req: EnvelopeModel, paths: PathsModel)
    requires
        req.url == "/exit"@,
    ensures
        ({
            let p = bridge_plan(req, paths);
            &&& p is ReplyThenExit
            &&& p->ReplyThenExit_0.body is Success
            &&& p->ReplyThenExit_0.url == req.url
            &&& p->ReplyThenExit_0.correlation_id == req.correlation_id
        }),
{
    reveal_strlit("/exit");
    reveal_strlit("/paths");
    reveal_strlit("/fs/file/write");
    reveal_strlit("/window/maximize");
    reveal_strlit("/window/minimize");
    reveal_strlit("/window/restore");
    reveal_strlit("/window/unmaximize");
    reveal_strlit("/engine");
    assert(route_spec(req.url) == Route::Exit);
}

} // verus!
