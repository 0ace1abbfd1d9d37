//! The protocol handler: a stateless dispatcher from one decoded
//! request to either a ready response, silence (for the notification),
//! or a tool call to finish once the device work is done.
//!
//! Every produced response echoes the request's identifier verbatim,
//! or null where the request had none. A failed tool call is still a
//! success envelope whose content block is flagged as an error; only
//! an unknown method is a protocol-level error.

use vstd::prelude::*;
use vstd::string::StringExecFns;
use crate::descriptors::{get_tools, tools_value};
use crate::json::{Jv, JsonValue, JsonArr, JsonObj, jv_get, jv_of, str_field};
use crate::render::{pretty_jv, render_pretty};
use crate::tools::{ToolAction, ToolStep, execute_tool, tool_action};

verus! {

broadcast use vstd::std_specs::vec::group_vec_axioms, vstd::seq::group_seq_axioms,
    vstd::string::group_string_axioms;

/// One decoded protocol request.
pub struct RpcRequest {
    pub id: Option<JsonValue>,
    pub method: String,
    pub params: JsonValue,
}

/// What the handler decides for one request.
pub enum Handling {
    /// A notification: nothing is transmitted.
    NoReply,
    /// A finished response, ready for the wire.
    Reply(JsonValue),
    /// A tool call: the executor's decision, to be finished with
    /// `finish_tool_reply` once the device work is done.
    Tool { id: JsonValue, step: ToolStep },
}

/// Mathematical mirror of a `Handling`.
pub enum HandlingSpec {
    NoReply,
    Reply(Jv),
    Tool(Jv, ToolAction),
}

impl DeepView for Handling {
    type V = HandlingSpec;

    open spec fn deep_view(&self) -> HandlingSpec {
        match self {
            Handling::NoReply => HandlingSpec::NoReply,
            Handling::Reply(v) => HandlingSpec::Reply(jv_of(*v)),
            Handling::Tool { id, step } => HandlingSpec::Tool(jv_of(*id), step.deep_view()),
        }
    }
}

/// A success envelope: version, echoed id, result.
pub open spec fn response_ok(id: Jv, result: Jv) -> Jv {
    Jv::Obj(seq![("jsonrpc"@, Jv::Text("2.0"@)), ("id"@, id), ("result"@, result)])
}

/// An error envelope: version, echoed id, code and message.
pub open spec fn response_err(id: Jv, code: int, msg: Seq<char>) -> Jv {
    Jv::Obj(
        seq![
            ("jsonrpc"@, Jv::Text("2.0"@)),
            ("id"@, id),
            (
                "error"@,
                Jv::Obj(seq![("code"@, Jv::Int(code)), ("message"@, Jv::Text(msg))]),
            ),
        ],
    )
}

/// The static identity returned by `initialize`.
pub open spec fn initialize_result() -> Jv {
    Jv::Obj(
        seq![
            ("protocolVersion"@, Jv::Text("2024-11-05"@)),
            (
                "serverInfo"@,
                Jv::Obj(
                    seq![
                        ("name"@, Jv::Text("desktop-mcp"@)),
                        ("version"@, Jv::Text("0.1.0"@)),
                    ],
                ),
            ),
            ("capabilities"@, Jv::Obj(seq![("tools"@, Jv::Obj(Seq::empty()))])),
        ],
    )
}

/// The identifier a response echoes: the request's, or null.
pub open spec fn req_id(id: Option<JsonValue>) -> Jv {
    match id {
        Some(v) => jv_of(v),
        None => Jv::Null,
    }
}

/// The tool name of a `tools/call`: the `name` string, or empty.
pub open spec fn call_name(params: Jv) -> Seq<char> {
    match str_field(params, "name"@) {
        Some(s) => s,
        None => ""@,
    }
}

/// The argument bag of a `tools/call`: the `arguments` value, or an
/// empty object.
pub open spec fn call_args(params: Jv) -> Jv {
    match jv_get(params, "arguments"@) {
        Some(v) => v,
        None => Jv::Obj(Seq::empty()),
    }
}

/// What the handler decides for a request, by method:
/// `initialize` and `tools/list` answer statically, the notification
/// answers nothing, `tools/call` delegates to the executor, and any
/// other method is the protocol error naming it.
pub open spec fn handling_of(id: Jv, method: Seq<char>, params: Jv) -> HandlingSpec {
    if method == "initialize"@ {
        HandlingSpec::Reply(response_ok(id, initialize_result()))
    } else if method == "notifications/initialized"@ {
        HandlingSpec::NoReply
    } else if method == "tools/list"@ {
        HandlingSpec::Reply(response_ok(id, Jv::Obj(seq![("tools"@, tools_value())])))
    } else if method == "tools/call"@ {
        HandlingSpec::Tool(id, tool_action(call_name(params), call_args(params)))
    } else {
        HandlingSpec::Reply(response_err(id, -32601, "Method not found: "@ + method))
    }
}

/// The notification is the one silent method: no bytes ever answer it.
pub proof fn lemma_notification_silent(id: Jv, params: Jv)
    ensures
        handling_of(id, "notifications/initialized"@, params) == HandlingSpec::NoReply,
{
    reveal_strlit("initialize");
    reveal_strlit("notifications/initialized");
    assert("initialize"@.len() == 10);
    assert("notifications/initialized"@.len() == 25);
    assert("notifications/initialized"@ != "initialize"@);
}

/// Any method outside the four the protocol knows is answered with the
/// protocol-level error carrying code -32601, the message naming the
/// method, and the request's own identifier.
pub proof fn lemma_unknown_method(id: Jv, method: Seq<char>, params: Jv)
    requires
        method != "initialize"@,
        method != "notifications/initialized"@,
        method != "tools/list"@,
        method != "tools/call"@,
    ensures
        handling_of(id, method, params) == HandlingSpec::Reply(
            response_err(id, -32601, "Method not found: "@ + method),
        ),
{
}

fn response_ok_json(id: JsonValue, result: JsonValue) -> (r: JsonValue)
    ensures
        jv_of(r) == response_ok(jv_of(id), jv_of(result)),
{
    let ghost gid = jv_of(id);
    let ghost gres = jv_of(result);
    let mut o = JsonObj::new();
    o.add("jsonrpc", JsonValue::Text(String::from_str("2.0")));
    o.add("id", id);
    o.add("result", result);
    let r = o.done();
    proof {
        assert(o@ =~= response_ok(gid, gres)->Obj_0);
        assert(jv_of(r) =~~= response_ok(gid, gres));
    }
    r
}

fn response_err_json(id: JsonValue, code: i64, msg: String) -> (r: JsonValue)
    ensures
        jv_of(r) == response_err(jv_of(id), code as int, msg@),
{
    let ghost gid = jv_of(id);
    let ghost gmsg = msg@;
    let mut e = JsonObj::new();
    e.add("code", JsonValue::Int(code));
    e.add("message", JsonValue::Text(msg));
    let ghost ge = e@;
    let mut o = JsonObj::new();
    o.add("jsonrpc", JsonValue::Text(String::from_str("2.0")));
    o.add("id", id);
    o.add("error", e.done());
    let r = o.done();
    proof {
        assert(ge =~= seq![("code"@, Jv::Int(code as int)), ("message"@, Jv::Text(gmsg))]);
        assert(o@ =~= response_err(gid, code as int, gmsg)->Obj_0);
        assert(jv_of(r) =~~= response_err(gid, code as int, gmsg));
    }
    r
}

fn initialize_json() -> (r: JsonValue)
    ensures
        jv_of(r) == initialize_result(),
{
    let mut info = JsonObj::new();
    info.add("name", JsonValue::Text(String::from_str("desktop-mcp")));
    info.add("version", JsonValue::Text(String::from_str("0.1.0")));
    let ghost ginfo = info@;
    let mut caps = JsonObj::new();
    caps.add("tools", JsonObj::new().done());
    let ghost gcaps = caps@;
    let mut o = JsonObj::new();
    o.add("protocolVersion", JsonValue::Text(String::from_str("2024-11-05")));
    o.add("serverInfo", info.done());
    o.add("capabilities", caps.done());
    let r = o.done();
    proof {
        assert(ginfo =~= seq![
            ("name"@, Jv::Text("desktop-mcp"@)),
            ("version"@, Jv::Text("0.1.0"@)),
        ]);
        assert(gcaps =~= seq![("tools"@, Jv::Obj(Seq::<(Seq<char>, Jv)>::empty()))]);
        assert(o@ =~= initialize_result()->Obj_0);
        assert(jv_of(r) =~~= initialize_result());
    }
    r
}

/// Handles one request: a response, silence, or a tool call to finish.
pub fn handle_request(req: RpcRequest) -> (r: Handling)
    ensures
        r.deep_view() == handling_of(req_id(req.id), req.method@, jv_of(req.params)),
{
    let id: JsonValue = match req.id {
        Some(v) => v,
        None => JsonValue::Null,
    };
    let ghost gid = jv_of(id);
    if crate::strutil::str_eq(req.method.as_str(), "initialize") {
        Handling::Reply(response_ok_json(id, initialize_json()))
    } else if crate::strutil::str_eq(req.method.as_str(), "notifications/initialized") {
        Handling::NoReply
    } else if crate::strutil::str_eq(req.method.as_str(), "tools/list") {
        let mut o = JsonObj::new();
        o.add("tools", get_tools());
        let listing = o.done();
        proof {
            assert(o@ =~= seq![("tools"@, tools_value())]);
            assert(jv_of(listing) =~~= Jv::Obj(seq![("tools"@, tools_value())]));
        }
        Handling::Reply(response_ok_json(id, listing))
    } else if crate::strutil::str_eq(req.method.as_str(), "tools/call") {
        let empty_args = JsonValue::Obj(Vec::new());
        proof {
            assert(jv_of(empty_args) =~~= Jv::Obj(Seq::<(Seq<char>, Jv)>::empty()));
        }
        let name: &str = match req.params.get_str("name") {
            Some(s) => s.as_str(),
            None => "",
        };
        let args: &JsonValue = match req.params.get("arguments") {
            Some(v) => v,
            None => &empty_args,
        };
        let step = execute_tool(name, args);
        Handling::Tool { id, step }
    } else {
        let msg = String::from_str("Method not found: ").concat(req.method.as_str());
        Handling::Reply(response_err_json(id, -32601, msg))
    }
}

/// One content block of a tool reply.
pub open spec fn content_block(text: Seq<char>) -> Jv {
    Jv::Obj(seq![("type"@, Jv::Text("text"@)), ("text"@, Jv::Text(text))])
}

/// The success envelope around a finished tool call: the indented
/// rendering of its result as a text content block.
pub open spec fn tool_success_reply(id: Jv, result: Jv) -> Jv {
    response_ok(
        id,
        Jv::Obj(
            seq![
                (
                    "content"@,
                    Jv::Arr(seq![content_block(pretty_jv(result, Seq::empty()))]),
                ),
            ],
        ),
    )
}

/// The success envelope around a failed tool call: the message as a
/// text content block, flagged as an error — not a protocol error.
pub open spec fn tool_error_reply(id: Jv, msg: Seq<char>) -> Jv {
    response_ok(
        id,
        Jv::Obj(
            seq![
                ("content"@, Jv::Arr(seq![content_block("Error: "@ + msg)])),
                ("isError"@, Jv::Bool(true)),
            ],
        ),
    )
}

fn content_block_json(text: String) -> (r: JsonValue)
    ensures
        jv_of(r) == content_block(text@),
{
    let ghost gtext = text@;
    let mut o = JsonObj::new();
    o.add("type", JsonValue::Text(String::from_str("text")));
    o.add("text", JsonValue::Text(text));
    let r = o.done();
    proof {
        assert(o@ =~= content_block(gtext)->Obj_0);
        assert(jv_of(r) =~~= content_block(gtext));
    }
    r
}

/// Finishes a tool call: wraps its outcome into the response envelope.
pub fn finish_tool_reply(id: JsonValue, outcome: Result<JsonValue, String>) -> (r: JsonValue)
    ensures
        outcome is Ok ==> jv_of(r) == tool_success_reply(jv_of(id), jv_of(outcome->Ok_0)),
        outcome is Err ==> jv_of(r) == tool_error_reply(jv_of(id), outcome->Err_0@),
{
    let ghost gid = jv_of(id);
    match outcome {
        Ok(result) => {
            let ghost gres = jv_of(result);
            let text = render_pretty(&result);
            let block = content_block_json(text);
            let mut arr = JsonArr::new();
            arr.add(block);
            let ghost garr = arr@;
            let mut o = JsonObj::new();
            o.add("content", arr.done());
            let body = o.done();
            proof {
                assert(garr =~= seq![content_block(pretty_jv(gres, Seq::empty()))]);
                assert(o@ =~= seq![
                    (
                        "content"@,
                        Jv::Arr(seq![content_block(pretty_jv(gres, Seq::empty()))]),
                    ),
                ]);
                assert(jv_of(body) =~~= tool_success_reply(gid, gres)->Obj_0[2].1);
            }
            response_ok_json(id, body)
        },
        Err(msg) => {
            let ghost gmsg = msg@;
            let text = String::from_str("Error: ").concat(msg.as_str());
            let block = content_block_json(text);
            let mut arr = JsonArr::new();
            arr.add(block);
            let ghost garr = arr@;
            let mut o = JsonObj::new();
            o.add("content", arr.done());
            o.add("isError", JsonValue::Bool(true));
            let body = o.done();
            proof {
                assert(garr =~= seq![content_block("Error: "@ + gmsg)]);
                assert(o@ =~= seq![
                    ("content"@, Jv::Arr(seq![content_block("Error: "@ + gmsg)])),
                    ("isError"@, Jv::Bool(true)),
                ]);
                assert(jv_of(body) =~~= tool_error_reply(gid, gmsg)->Obj_0[2].1);
            }
            response_ok_json(id, body)
        },
    }
}

} // verus!
