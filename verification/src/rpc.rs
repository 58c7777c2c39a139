//! JSON-RPC 2.0: the answer to each request, and the requests that need a
//! tool to run first.

use vstd::prelude::*;
use crate::catalog::{tool_catalog, tools};
use crate::json::{
    add_member, as_s, int_number, json_int, json_str, member, no_members, object, str_member,
    str_of, Json, JsonSpec,
};
use crate::text::{blank, is_blank, same_text, trim, trimmed};

verus! {

/// The server's name, as `initialize` reports it.
pub const NAME: &'static str = "ruos-mcp";

/// The server's version, as `initialize` reports it.
pub const VERSION: &'static str = "0.1.0";

/// The protocol version answered when the client names none.
pub const DEFAULT_PROTOCOL: &'static str = "2025-06-18";

/// A successful JSON-RPC response.
pub open spec fn reply_spec(id: JsonSpec, result: JsonSpec) -> JsonSpec {
    JsonSpec::Object(
        seq![("jsonrpc"@, JsonSpec::Str("2.0"@))].push(("id"@, id)).push(("result"@, result)),
    )
}

/// A JSON-RPC error response.
pub open spec fn reply_err_spec(id: JsonSpec, code: i64, msg: Seq<char>) -> JsonSpec {
    JsonSpec::Object(
        seq![("jsonrpc"@, JsonSpec::Str("2.0"@))].push(("id"@, id)).push(
            (
                "error"@,
                JsonSpec::Object(
                    seq![("code"@, JsonSpec::Number(int_number(code)))].push(
                        ("message"@, JsonSpec::Str(msg)),
                    ),
                ),
            ),
        ),
    )
}

/// The empty object.
pub open spec fn empty_object() -> JsonSpec {
    JsonSpec::Object(Seq::empty())
}

/// The protocol version that `initialize` answers: the client's, when its
/// `params.protocolVersion` is a string, else `DEFAULT_PROTOCOL`.
pub open spec fn protocol_version(msg: JsonSpec) -> Seq<char> {
    match member(msg, "params"@) {
        Some(p) => match member(p, "protocolVersion"@) {
            Some(v) => match str_of(v) {
                Some(s) => s,
                None => DEFAULT_PROTOCOL@,
            },
            None => DEFAULT_PROTOCOL@,
        },
        None => DEFAULT_PROTOCOL@,
    }
}

/// The result of `initialize`.
pub open spec fn init_result(pv: Seq<char>) -> JsonSpec {
    JsonSpec::Object(
        seq![("protocolVersion"@, JsonSpec::Str(pv))].push(
            ("capabilities"@, JsonSpec::Object(seq![("tools"@, empty_object())])),
        ).push(
            (
                "serverInfo"@,
                JsonSpec::Object(
                    seq![("name"@, JsonSpec::Str(NAME@))].push(("version"@, JsonSpec::Str(VERSION@))),
                ),
            ),
        ),
    )
}

/// The `params` of a request, or the empty object.
pub open spec fn call_params(msg: JsonSpec) -> JsonSpec {
    match member(msg, "params"@) {
        Some(p) => p,
        None => empty_object(),
    }
}

/// The `arguments` among `params`, or the empty object.
pub open spec fn call_args(params: JsonSpec) -> JsonSpec {
    match member(params, "arguments"@) {
        Some(a) => a,
        None => empty_object(),
    }
}

/// What the server does with one message.
#[derive(Debug)]
pub enum Dispatch {
    /// Nothing: the message is a notification.
    Silent,
    /// Answer with this response.
    Reply(Json),
    /// Run the tool (request id, tool name, arguments), then answer
    /// `reply(id, result)`.
    CallTool(Json, String, Json),
}

/// The view of a `Dispatch`.
pub enum DispatchSpec {
    Silent,
    Reply(JsonSpec),
    CallTool(JsonSpec, Seq<char>, JsonSpec),
}

impl View for Dispatch {
    type V = DispatchSpec;

    open spec fn view(&self) -> DispatchSpec {
        match self {
            Dispatch::Silent => DispatchSpec::Silent,
            Dispatch::Reply(r) => DispatchSpec::Reply(r@),
            Dispatch::CallTool(id, name, args) => DispatchSpec::CallTool(id@, name@, args@),
        }
    }
}

/// What the server does with the message `msg`.
pub open spec fn handle_spec(msg: JsonSpec) -> DispatchSpec {
    match member(msg, "id"@) {
        None => DispatchSpec::Silent,
        Some(id) => {
            let method = str_member(msg, "method"@);
            if method == "initialize"@ {
                DispatchSpec::Reply(reply_spec(id, init_result(protocol_version(msg))))
            } else if method == "ping"@ {
                DispatchSpec::Reply(reply_spec(id, empty_object()))
            } else if method == "tools/list"@ {
                DispatchSpec::Reply(
                    reply_spec(
                        id,
                        JsonSpec::Object(seq![("tools"@, JsonSpec::Array(tool_catalog()))]),
                    ),
                )
            } else if method == "tools/call"@ {
                let params = call_params(msg);
                let name = str_member(params, "name"@);
                if name.len() == 0 {
                    DispatchSpec::Reply(reply_err_spec(id, -32602i64, "missing tool name"@))
                } else {
                    DispatchSpec::CallTool(id, name, call_args(params))
                }
            } else {
                DispatchSpec::Reply(reply_err_spec(id, -32601i64, "method not found"@))
            }
        },
    }
}

/// A successful response to the request `id`.
pub fn reply(id: Json, result: Json) -> (r: Json)
    ensures
        r@ == reply_spec(id@, result@),
{
    let mut ms = no_members();
    add_member(&mut ms, "jsonrpc", json_str("2.0"));
    add_member(&mut ms, "id", id);
    add_member(&mut ms, "result", result);
    let r = object(ms);
    assert(r@ =~= reply_spec(id@, result@));
    r
}

/// An error response to the request `id`.
pub fn reply_err(id: Json, code: i64, msg: &str) -> (r: Json)
    ensures
        r@ == reply_err_spec(id@, code, msg@),
{
    let mut err = no_members();
    add_member(&mut err, "code", json_int(code));
    add_member(&mut err, "message", json_str(msg));
    let mut ms = no_members();
    add_member(&mut ms, "jsonrpc", json_str("2.0"));
    add_member(&mut ms, "id", id);
    add_member(&mut ms, "error", object(err));
    let r = object(ms);
    assert(r@ =~= reply_err_spec(id@, code, msg@));
    r
}

fn empty() -> (r: Json)
    ensures
        r@ == empty_object(),
{
    let r = object(no_members());
    assert(r@ =~= empty_object());
    r
}

fn initialize_result(msg: &Json) -> (r: Json)
    ensures
        r@ == init_result(protocol_version(msg@)),
{
    let pv: &str = match msg.get("params") {
        Some(p) => match p.get("protocolVersion") {
            Some(v) => match v.as_str() {
                Some(s) => s,
                None => DEFAULT_PROTOCOL,
            },
            None => DEFAULT_PROTOCOL,
        },
        None => DEFAULT_PROTOCOL,
    };
    let mut caps = no_members();
    add_member(&mut caps, "tools", empty());
    let mut info = no_members();
    add_member(&mut info, "name", json_str(NAME));
    add_member(&mut info, "version", json_str(VERSION));
    let mut ms = no_members();
    add_member(&mut ms, "protocolVersion", json_str(pv));
    add_member(&mut ms, "capabilities", object(caps));
    add_member(&mut ms, "serverInfo", object(info));
    let r = object(ms);
    assert(r@ =~= init_result(protocol_version(msg@)));
    r
}

/// What the server does with one message: nothing for a notification (no
/// `id`), else the response, or the tool call to run before responding.
pub fn handle(msg: &Json) -> (r: Dispatch)
    ensures
        r@ == handle_spec(msg@),
{
    let method = as_s(msg, "method");
    let id = match msg.get("id") {
        Some(id) => id.deep_clone(),
        None => {
            return Dispatch::Silent;
        },
    };
    if same_text(method, "initialize") {
        Dispatch::Reply(reply(id, initialize_result(msg)))
    } else if same_text(method, "ping") {
        Dispatch::Reply(reply(id, empty()))
    } else if same_text(method, "tools/list") {
        let mut ms = no_members();
        add_member(&mut ms, "tools", tools());
        let result = object(ms);
        assert(result@ =~= JsonSpec::Object(seq![("tools"@, JsonSpec::Array(tool_catalog()))]));
        Dispatch::Reply(reply(id, result))
    } else if same_text(method, "tools/call") {
        let params = match msg.get("params") {
            Some(p) => p.deep_clone(),
            None => empty(),
        };
        let name = as_s(&params, "name");
        let args = match params.get("arguments") {
            Some(a) => a.deep_clone(),
            None => empty(),
        };
        if name.unicode_len() == 0 {
            return Dispatch::Reply(reply_err(id, -32602, "missing tool name"));
        }
        Dispatch::CallTool(id, String::from_str(name), args)
    } else {
        Dispatch::Reply(reply_err(id, -32601, "method not found"))
    }
}


/// The text of one input line to read as a message: the line without its
/// surrounding white space, or nothing for a blank line, which is skipped.
pub fn message_text(line: &str) -> (r: Option<String>)
    ensures
        match r {
            Some(t) => !blank(line@) && t@ == trimmed(line@),
            None => blank(line@),
        },
{
    if is_blank(line) {
        None
    } else {
        Some(trim(line))
    }
}

} // verus!
