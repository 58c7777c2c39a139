//! What holds of the server across its functions.

use vstd::prelude::*;
use crate::catalog::{
    described_spec, direction_spec, entry_spec, prop_spec, tool_catalog, tool_names, xy_spec,
};
use crate::json::{lookup, member, str_member, JsonSpec};
use crate::rpc::{handle_spec, reply_err_spec, reply_spec, DispatchSpec};
use crate::shell::{lemma_shq_reads_back, shell_quoted, shell_word};
use crate::tools::{
    action_body, click_plan, drag_plan, key_plan, mouse_move_plan, resolution_plan, run_shell_plan,
    scroll_amount, scroll_plan, system_action_plan, text_result, tool_plan, type_text_plan,
    wait_millis, wait_plan, FinishSpec, StepSpec, EXECUTOR,
};

verus! {

/// Law: a message without an `id` (a notification) gets no response, and
/// every message with one gets an answer or a tool call.
pub proof fn lemma_notifications_get_no_response(msg: JsonSpec)
    ensures
        (handle_spec(msg) is Silent) == (member(msg, "id"@) is None),
{
}

/// The first two members of a response are its `jsonrpc` and its `id`.
proof fn lemma_response_head(ms: Seq<(Seq<char>, JsonSpec)>, id: JsonSpec)
    requires
        ms.len() >= 2,
        ms[0] == ("jsonrpc"@, JsonSpec::Str("2.0"@)),
        ms[1] == ("id"@, id),
    ensures
        lookup(ms, "jsonrpc"@) == Some(JsonSpec::Str("2.0"@)),
        lookup(ms, "id"@) == Some(id),
{
    reveal_strlit("jsonrpc");
    reveal_strlit("id");
    assert("jsonrpc"@ != "id"@) by {
        assert("jsonrpc"@.len() != "id"@.len());
    }
    assert(ms.drop_first()[0] == ms[1]);
    assert(lookup(ms.drop_first(), "id"@) == Some(id));
}

/// Law: every response is a JSON-RPC 2.0 response to the request's own `id`;
/// so is the reply that follows a tool call.
pub proof fn lemma_responses_echo_the_id(msg: JsonSpec, tool_result: JsonSpec)
    ensures
        match handle_spec(msg) {
            DispatchSpec::Silent => true,
            DispatchSpec::Reply(r) => {
                &&& member(r, "jsonrpc"@) == Some(JsonSpec::Str("2.0"@))
                &&& member(r, "id"@) == member(msg, "id"@)
            },
            DispatchSpec::CallTool(id, _, _) => {
                &&& member(msg, "id"@) == Some(id)
                &&& member(reply_spec(id, tool_result), "jsonrpc"@) == Some(JsonSpec::Str("2.0"@))
                &&& member(reply_spec(id, tool_result), "id"@) == Some(id)
            },
        },
{
    match member(msg, "id"@) {
        Some(id) => {
            let r = reply_spec(id, tool_result);
            lemma_response_head(r->Object_0, id);
            let e1 = reply_err_spec(id, -32602i64, "missing tool name"@);
            lemma_response_head(e1->Object_0, id);
            let e2 = reply_err_spec(id, -32601i64, "method not found"@);
            lemma_response_head(e2->Object_0, id);
            match handle_spec(msg) {
                DispatchSpec::Reply(r) => {
                    lemma_response_head(r->Object_0, id);
                },
                _ => {},
            }
        },
        None => {},
    }
}


/// The unknown-tool answer for `name`.
pub open spec fn unknown_tool(name: Seq<char>) -> StepSpec {
    StepSpec::Done(text_result("unknown tool '"@ + name + "'"@, true))
}


/// Law: the catalog has sixteen entries, and entry `i` is the tool named
/// `tool_names()[i]`.
pub proof fn lemma_catalog_entries_are_named()
    ensures
        tool_catalog().len() == 16,
        tool_names().len() == 16,
        forall|i: int|
            0 <= i < 16 ==> member(#[trigger] tool_catalog()[i], "name"@) == Some(
                JsonSpec::Str(tool_names()[i]),
            ),
{
    assert forall|i: int| 0 <= i < 16 implies member(#[trigger] tool_catalog()[i], "name"@)
        == Some(JsonSpec::Str(tool_names()[i])) by {
        let ms = tool_catalog()[i]->Object_0;
        assert(ms[0].0 == "name"@);
    }
}

/// Law: `tools/call` knows exactly the tools that `tools/list` advertises:
/// it answers "unknown tool" for a name if and only if no catalog entry has
/// that name.
pub proof fn lemma_advertised_tools_are_callable(name: Seq<char>, args: JsonSpec)
    ensures
        tool_names().contains(name) <==> tool_plan(name, args) != unknown_tool(name),
{
    reveal_strlit("unknown tool '");
    reveal_strlit("'");
    reveal_strlit("keys required");
    reveal_strlit("command required");
    reveal_strlit("action required");
    reveal_strlit("give width+height or a preset (720p|1080p|qxga|1440p)");
    lemma_tool_plans(name, args);
    if tool_names().contains(name) {
        let k = choose|k: int| 0 <= k < tool_names().len() && tool_names()[k] == name;
        assert(tool_names()[k] == name);
        assert({
            ||| name == "screenshot"@
            ||| name == "screen_size"@
            ||| name == "cursor_position"@
            ||| name == "mouse_move"@
            ||| name == "left_click"@
            ||| name == "right_click"@
            ||| name == "middle_click"@
            ||| name == "double_click"@
            ||| name == "left_click_drag"@
            ||| name == "type_text"@
            ||| name == "key"@
            ||| name == "scroll"@
            ||| name == "wait"@
            ||| name == "run_shell"@
            ||| name == "system_action"@
            ||| name == "desktop_resolution"@
        });
        reveal_strlit("key");
        reveal_strlit("run_shell");
        reveal_strlit("system_action");
        reveal_strlit("desktop_resolution");
        if tool_plan(name, args) == unknown_tool(name) {
            let msg = "unknown tool '"@ + name + "'"@;
            let j = text_result(msg, true);
            let c = j->Object_0[0].1->Array_0[0]->Object_0[1].1->Str_0;
            assert(c == msg);
            assert(msg.len() == name.len() + 15);
        }
    } else {
        assert(name != "screenshot"@) by {
            if name == "screenshot"@ {
                assert(tool_names()[0] == name);
            }
        }
        assert(name != "screen_size"@) by {
            if name == "screen_size"@ {
                assert(tool_names()[1] == name);
            }
        }
        assert(name != "cursor_position"@) by {
            if name == "cursor_position"@ {
                assert(tool_names()[2] == name);
            }
        }
        assert(name != "mouse_move"@) by {
            if name == "mouse_move"@ {
                assert(tool_names()[3] == name);
            }
        }
        assert(name != "left_click"@) by {
            if name == "left_click"@ {
                assert(tool_names()[4] == name);
            }
        }
        assert(name != "right_click"@) by {
            if name == "right_click"@ {
                assert(tool_names()[5] == name);
            }
        }
        assert(name != "middle_click"@) by {
            if name == "middle_click"@ {
                assert(tool_names()[6] == name);
            }
        }
        assert(name != "double_click"@) by {
            if name == "double_click"@ {
                assert(tool_names()[7] == name);
            }
        }
        assert(name != "left_click_drag"@) by {
            if name == "left_click_drag"@ {
                assert(tool_names()[8] == name);
            }
        }
        assert(name != "type_text"@) by {
            if name == "type_text"@ {
                assert(tool_names()[9] == name);
            }
        }
        assert(name != "key"@) by {
            if name == "key"@ {
                assert(tool_names()[10] == name);
            }
        }
        assert(name != "scroll"@) by {
            if name == "scroll"@ {
                assert(tool_names()[11] == name);
            }
        }
        assert(name != "wait"@) by {
            if name == "wait"@ {
                assert(tool_names()[12] == name);
            }
        }
        assert(name != "run_shell"@) by {
            if name == "run_shell"@ {
                assert(tool_names()[13] == name);
            }
        }
        assert(name != "system_action"@) by {
            if name == "system_action"@ {
                assert(tool_names()[14] == name);
            }
        }
        assert(name != "desktop_resolution"@) by {
            if name == "desktop_resolution"@ {
                assert(tool_names()[15] == name);
            }
        }
    }
}

/// Each tool name reaches that tool's own branch of the plan: the names of
/// the tools differ from each other.
pub(crate) proof fn lemma_tool_plans(name: Seq<char>, args: JsonSpec)
    ensures
        name == "screenshot"@ ==> tool_plan(name, args) == StepSpec::Screenshot,
        name == "screen_size"@ ==> tool_plan(name, args) == StepSpec::Shell("xdotool getdisplaygeometry"@, FinishSpec::Trimmed),
        name == "cursor_position"@ ==> tool_plan(name, args) == StepSpec::Shell(
            "xdotool getmouselocation --shell | sed -n '1,2p' | cut -d= -f2 | paste -sd' '"@,
            FinishSpec::Trimmed,
        ),
        name == "mouse_move"@ ==> tool_plan(name, args) == mouse_move_plan(args),
        name == "left_click"@ ==> tool_plan(name, args) == click_plan(name, args),
        name == "right_click"@ ==> tool_plan(name, args) == click_plan(name, args),
        name == "middle_click"@ ==> tool_plan(name, args) == click_plan(name, args),
        name == "double_click"@ ==> tool_plan(name, args) == click_plan(name, args),
        name == "left_click_drag"@ ==> tool_plan(name, args) == drag_plan(args),
        name == "type_text"@ ==> tool_plan(name, args) == type_text_plan(args),
        name == "key"@ ==> tool_plan(name, args) == key_plan(args),
        name == "scroll"@ ==> tool_plan(name, args) == scroll_plan(args),
        name == "wait"@ ==> tool_plan(name, args) == wait_plan(args),
        name == "run_shell"@ ==> tool_plan(name, args) == run_shell_plan(args),
        name == "system_action"@ ==> tool_plan(name, args) == system_action_plan(args),
        name == "desktop_resolution"@ ==> tool_plan(name, args) == resolution_plan(args),
{
    reveal_strlit("screenshot");
    reveal_strlit("screen_size");
    reveal_strlit("cursor_position");
    reveal_strlit("mouse_move");
    reveal_strlit("left_click");
    reveal_strlit("right_click");
    reveal_strlit("middle_click");
    reveal_strlit("double_click");
    reveal_strlit("left_click_drag");
    reveal_strlit("type_text");
    reveal_strlit("key");
    reveal_strlit("scroll");
    reveal_strlit("wait");
    reveal_strlit("run_shell");
    reveal_strlit("system_action");
    reveal_strlit("desktop_resolution");
    assert("screenshot"@[0] != "mouse_move"@[0]);
    assert("screenshot"@[0] != "left_click"@[0]);
    assert("screen_size"@[0] != "right_click"@[0]);
    assert("cursor_position"@[0] != "left_click_drag"@[0]);
    assert("mouse_move"@[0] != "left_click"@[0]);
    assert("middle_click"@[0] != "double_click"@[0]);
    assert("type_text"@[0] != "run_shell"@[0]);
}

/// Law: `wait` never sleeps more than ten seconds, nor a negative time.
pub proof fn lemma_wait_is_bounded(args: JsonSpec)
    ensures
        0 <= wait_millis(args) <= 10000,
        tool_plan("wait"@, args) matches StepSpec::Sleep(ms, _) && ms == wait_millis(args) as u64,
{
    lemma_tool_plans("wait"@, args);
}

/// Law: `scroll` clicks the wheel between 1 and 100 times.
pub proof fn lemma_scroll_is_bounded(args: JsonSpec)
    ensures
        1 <= scroll_amount(args) <= 100,
{
}

/// Law: the text given to `type_text` reaches xdotool as one shell word that
/// the shell reads back as exactly that text.
pub proof fn lemma_typed_text_is_one_word(args: JsonSpec)
    ensures
        tool_plan("type_text"@, args) matches StepSpec::Shell(cmd, _) && {
            let prefix = "xdotool type --clearmodifiers -- "@;
            &&& cmd.subrange(0, prefix.len() as int) == prefix
            &&& shell_word(cmd.subrange(prefix.len() as int, cmd.len() as int)) == Some(
                str_member(args, "text"@),
            )
        },
{
    lemma_tool_plans("type_text"@, args);
    let prefix = "xdotool type --clearmodifiers -- "@;
    let w = shell_quoted(str_member(args, "text"@));
    lemma_shq_reads_back(str_member(args, "text"@));
    assert((prefix + w).subrange(0, prefix.len() as int) =~= prefix);
    assert((prefix + w).subrange(prefix.len() as int, (prefix + w).len() as int) =~= w);
}


/// Law: the keys given to `key`, when there are any, reach xdotool as one
/// shell word that the shell reads back as exactly those keys.
pub proof fn lemma_pressed_keys_are_one_word(args: JsonSpec)
    requires
        str_member(args, "keys"@).len() > 0,
    ensures
        tool_plan("key"@, args) matches StepSpec::Shell(cmd, _) && exists|w: Seq<char>|
            cmd == "xdotool key --clearmodifiers -- "@ + w && shell_word(w) == Some(
                str_member(args, "keys"@),
            ),
{
    lemma_tool_plans("key"@, args);
    let w = shell_quoted(str_member(args, "keys"@));
    lemma_shq_reads_back(str_member(args, "keys"@));
    assert(shell_word(w) == Some(str_member(args, "keys"@)));
}

/// Law: `system_action` posts to the executor the JSON object of the given
/// action and args, handed to curl as one shell word that the shell reads back
/// as exactly that object.
pub proof fn lemma_action_body_is_one_word(args: JsonSpec)
    requires
        str_member(args, "action"@).len() > 0,
    ensures
        tool_plan("system_action"@, args) matches StepSpec::Shell(cmd, _) && exists|w: Seq<char>|
            cmd == "curl -s --max-time "@ + "300"@ + " -H 'Content-Type: application/json' -d "@
                + w + " "@ + EXECUTOR@ && shell_word(w) == Some(
                action_body(str_member(args, "action"@), str_member(args, "args"@)),
            ),
{
    lemma_tool_plans("system_action"@, args);
    let body = action_body(str_member(args, "action"@), str_member(args, "args"@));
    let w = shell_quoted(body);
    lemma_shq_reads_back(body);
    assert(shell_word(w) == Some(body));
}


/// The argument schema of a catalog entry.
pub open spec fn entry_schema(entry: JsonSpec) -> JsonSpec {
    match member(entry, "inputSchema"@) {
        Some(s) => s,
        None => JsonSpec::Null,
    }
}

/// The names that a catalog entry lists as required.
pub open spec fn entry_required(entry: JsonSpec) -> Seq<JsonSpec> {
    match member(entry_schema(entry), "required"@) {
        Some(JsonSpec::Array(names)) => names,
        _ => Seq::empty(),
    }
}

/// The properties of a catalog entry's schema.
pub open spec fn entry_properties(entry: JsonSpec) -> JsonSpec {
    match member(entry_schema(entry), "properties"@) {
        Some(p) => p,
        None => JsonSpec::Null,
    }
}

/// A member whose key is `k` makes the lookup of `k` succeed.
proof fn lemma_lookup_finds(ms: Seq<(Seq<char>, JsonSpec)>, k: Seq<char>, at: int)
    requires
        0 <= at < ms.len(),
        ms[at].0 == k,
    ensures
        lookup(ms, k) is Some,
    decreases at,
{
    if ms[0].0 != k {
        assert(ms.drop_first()[at - 1] == ms[at]);
        lemma_lookup_finds(ms.drop_first(), k, at - 1);
    }
}

proof fn lemma_entry_parts()
    ensures
        forall|name: Seq<char>, desc: Seq<char>, props: JsonSpec, req: Seq<JsonSpec>|
            #![trigger entry_spec(name, desc, props, JsonSpec::Array(req))]
            entry_required(entry_spec(name, desc, props, JsonSpec::Array(req))) == req
                && entry_properties(entry_spec(name, desc, props, JsonSpec::Array(req))) == props,
{
    reveal_strlit("name");
    reveal_strlit("description");
    reveal_strlit("inputSchema");
    reveal_strlit("type");
    reveal_strlit("properties");
    reveal_strlit("required");
    assert forall|name: Seq<char>, desc: Seq<char>, props: JsonSpec, req: Seq<JsonSpec>|
        #![trigger entry_spec(name, desc, props, JsonSpec::Array(req))]
        entry_required(entry_spec(name, desc, props, JsonSpec::Array(req))) == req
            && entry_properties(entry_spec(name, desc, props, JsonSpec::Array(req))) == props by {
        let e = entry_spec(name, desc, props, JsonSpec::Array(req));
        let ms = e->Object_0;
        assert("description"@[0] != "inputSchema"@[0]);
        assert("name"@.len() != "inputSchema"@.len());
        assert("type"@.len() != "properties"@.len());
        assert("type"@.len() != "required"@.len());
        assert("properties"@.len() != "required"@.len());
        assert(ms[0].0 != "inputSchema"@);
        assert(ms[1].0 != "inputSchema"@);
        assert(ms.drop_first()[0] == ms[1]);
        assert(ms.drop_first().drop_first()[0] == ms[2]);
        assert(lookup(ms.drop_first().drop_first(), "inputSchema"@) == Some(ms[2].1));
        assert(lookup(ms.drop_first(), "inputSchema"@) == Some(ms[2].1));
        let sm = ms[2].1->Object_0;
        assert(sm[0].0 != "properties"@);
        assert(sm[0].0 != "required"@);
        assert(sm[1].0 != "required"@);
        assert(sm.drop_first()[0] == sm[1]);
        assert(lookup(sm.drop_first(), "properties"@) == Some(props));
        assert(sm.drop_first().drop_first()[0] == sm[2]);
        assert(lookup(sm.drop_first().drop_first(), "required"@) == Some(JsonSpec::Array(req)));
        assert(lookup(sm.drop_first(), "required"@) == Some(JsonSpec::Array(req)));
    }
}

/// Law: every argument that a catalog entry names as required is one of the
/// properties that its schema describes.
pub proof fn lemma_required_arguments_are_described(i: int, j: int)
    requires
        0 <= i < tool_catalog().len(),
        0 <= j < entry_required(tool_catalog()[i]).len(),
    ensures
        entry_required(tool_catalog()[i])[j] matches JsonSpec::Str(k) && member(
            entry_properties(tool_catalog()[i]),
            k,
        ) is Some,
{
    lemma_entry_parts();
    let e = tool_catalog()[i];
    let k = entry_required(e)[j]->Str_0;
    assert(entry_required(e)[j] is Str);
    assert(entry_properties(e) is Object);
    assert(j < entry_properties(e)->Object_0.len());
    assert(entry_properties(e)->Object_0[j].0 == k);
    lemma_lookup_finds(entry_properties(e)->Object_0, k, j);
}


/// The argument names that the tools read as integers.
pub open spec fn read_as_integer(k: Seq<char>) -> bool {
    ||| k == "x"@
    ||| k == "y"@
    ||| k == "to_x"@
    ||| k == "to_y"@
    ||| k == "amount"@
    ||| k == "ms"@
    ||| k == "width"@
    ||| k == "height"@
    ||| k == "refresh"@
}

/// The argument names that the tools read as texts.
pub open spec fn read_as_text(k: Seq<char>) -> bool {
    ||| k == "text"@
    ||| k == "keys"@
    ||| k == "direction"@
    ||| k == "command"@
    ||| k == "action"@
    ||| k == "args"@
    ||| k == "preset"@
}

/// Each argument name is read one way only.
proof fn lemma_argument_kinds()
    ensures
        read_as_integer("x"@) && !read_as_text("x"@),
        read_as_integer("y"@) && !read_as_text("y"@),
        read_as_integer("to_x"@) && !read_as_text("to_x"@),
        read_as_integer("to_y"@) && !read_as_text("to_y"@),
        read_as_integer("amount"@) && !read_as_text("amount"@),
        read_as_integer("ms"@) && !read_as_text("ms"@),
        read_as_integer("width"@) && !read_as_text("width"@),
        read_as_integer("height"@) && !read_as_text("height"@),
        read_as_integer("refresh"@) && !read_as_text("refresh"@),
        read_as_text("text"@) && !read_as_integer("text"@),
        read_as_text("keys"@) && !read_as_integer("keys"@),
        read_as_text("direction"@) && !read_as_integer("direction"@),
        read_as_text("command"@) && !read_as_integer("command"@),
        read_as_text("action"@) && !read_as_integer("action"@),
        read_as_text("args"@) && !read_as_integer("args"@),
        read_as_text("preset"@) && !read_as_integer("preset"@),
{
    reveal_strlit("x");
    assert("x"@.len() == 1);
    reveal_strlit("y");
    assert("y"@.len() == 1);
    reveal_strlit("to_x");
    assert("to_x"@.len() == 4);
    reveal_strlit("to_y");
    assert("to_y"@.len() == 4);
    reveal_strlit("amount");
    assert("amount"@.len() == 6);
    reveal_strlit("ms");
    assert("ms"@.len() == 2);
    reveal_strlit("width");
    assert("width"@.len() == 5);
    reveal_strlit("height");
    assert("height"@.len() == 6);
    reveal_strlit("refresh");
    assert("refresh"@.len() == 7);
    reveal_strlit("text");
    assert("text"@.len() == 4);
    reveal_strlit("keys");
    assert("keys"@.len() == 4);
    reveal_strlit("direction");
    assert("direction"@.len() == 9);
    reveal_strlit("command");
    assert("command"@.len() == 7);
    reveal_strlit("action");
    assert("action"@.len() == 6);
    reveal_strlit("args");
    assert("args"@.len() == 4);
    reveal_strlit("preset");
    assert("preset"@.len() == 6);
    assert("to_x"@[1] != "text"@[1]);
    assert("to_x"@[0] != "keys"@[0]);
    assert("to_x"@[0] != "args"@[0]);
    assert("to_y"@[1] != "text"@[1]);
    assert("to_y"@[0] != "keys"@[0]);
    assert("to_y"@[0] != "args"@[0]);
    assert("amount"@[1] != "action"@[1]);
    assert("amount"@[0] != "preset"@[0]);
    assert("height"@[0] != "action"@[0]);
    assert("height"@[0] != "preset"@[0]);
    assert("refresh"@[0] != "command"@[0]);
}

/// Law: every property that the catalog describes is an argument that some
/// tool reads, and its declared type is the one it is read as: "integer" for
/// those read as integers (coordinates, amount, ms, sizes, refresh),
/// "string" for those read as texts.
pub proof fn lemma_catalog_types_match_reads(i: int, j: int)
    requires
        0 <= i < tool_catalog().len(),
        0 <= j < entry_properties(tool_catalog()[i])->Object_0.len(),
    ensures
        ({
            let (k, v) = entry_properties(tool_catalog()[i])->Object_0[j];
            &&& read_as_integer(k) || read_as_text(k)
            &&& read_as_integer(k) ==> member(v, "type"@) == Some(JsonSpec::Str("integer"@))
            &&& read_as_text(k) ==> member(v, "type"@) == Some(JsonSpec::Str("string"@))
        }),
{
    lemma_entry_parts();
    lemma_argument_kinds();
    let (k, v) = entry_properties(tool_catalog()[i])->Object_0[j];
    if i == 0 {
        assert(entry_properties(tool_catalog()[0]) == JsonSpec::Object(Seq::empty()));
        }
    if i == 1 {
        assert(entry_properties(tool_catalog()[1]) == JsonSpec::Object(Seq::empty()));
        }
    if i == 2 {
        assert(entry_properties(tool_catalog()[2]) == JsonSpec::Object(Seq::empty()));
        }
    if i == 3 {
        assert(entry_properties(tool_catalog()[3]) == xy_spec());
            if j == 0 {
            assert(k == "x"@);
            assert(member(v, "type"@) == Some(JsonSpec::Str("integer"@)));
            assert(!read_as_text(k));
        }
        if j == 1 {
            assert(k == "y"@);
            assert(member(v, "type"@) == Some(JsonSpec::Str("integer"@)));
            assert(!read_as_text(k));
        }
    }
    if i == 4 {
        assert(entry_properties(tool_catalog()[4]) == xy_spec());
            if j == 0 {
            assert(k == "x"@);
            assert(member(v, "type"@) == Some(JsonSpec::Str("integer"@)));
            assert(!read_as_text(k));
        }
        if j == 1 {
            assert(k == "y"@);
            assert(member(v, "type"@) == Some(JsonSpec::Str("integer"@)));
            assert(!read_as_text(k));
        }
    }
    if i == 5 {
        assert(entry_properties(tool_catalog()[5]) == xy_spec());
            if j == 0 {
            assert(k == "x"@);
            assert(member(v, "type"@) == Some(JsonSpec::Str("integer"@)));
            assert(!read_as_text(k));
        }
        if j == 1 {
            assert(k == "y"@);
            assert(member(v, "type"@) == Some(JsonSpec::Str("integer"@)));
            assert(!read_as_text(k));
        }
    }
    if i == 6 {
        assert(entry_properties(tool_catalog()[6]) == xy_spec());
            if j == 0 {
            assert(k == "x"@);
            assert(member(v, "type"@) == Some(JsonSpec::Str("integer"@)));
            assert(!read_as_text(k));
        }
        if j == 1 {
            assert(k == "y"@);
            assert(member(v, "type"@) == Some(JsonSpec::Str("integer"@)));
            assert(!read_as_text(k));
        }
    }
    if i == 7 {
        assert(entry_properties(tool_catalog()[7]) == xy_spec());
            if j == 0 {
            assert(k == "x"@);
            assert(member(v, "type"@) == Some(JsonSpec::Str("integer"@)));
            assert(!read_as_text(k));
        }
        if j == 1 {
            assert(k == "y"@);
            assert(member(v, "type"@) == Some(JsonSpec::Str("integer"@)));
            assert(!read_as_text(k));
        }
    }
    if i == 8 {
        assert(entry_properties(tool_catalog()[8]) == JsonSpec::Object(Seq::empty().push(("x"@, prop_spec("integer"@))).push(("y"@, prop_spec("integer"@))).push(("to_x"@, prop_spec("integer"@))).push(("to_y"@, prop_spec("integer"@)))));
            if j == 0 {
            assert(k == "x"@);
            assert(member(v, "type"@) == Some(JsonSpec::Str("integer"@)));
            assert(!read_as_text(k));
        }
        if j == 1 {
            assert(k == "y"@);
            assert(member(v, "type"@) == Some(JsonSpec::Str("integer"@)));
            assert(!read_as_text(k));
        }
        if j == 2 {
            assert(k == "to_x"@);
            assert(member(v, "type"@) == Some(JsonSpec::Str("integer"@)));
            assert(!read_as_text(k));
        }
        if j == 3 {
            assert(k == "to_y"@);
            assert(member(v, "type"@) == Some(JsonSpec::Str("integer"@)));
            assert(!read_as_text(k));
        }
    }
    if i == 9 {
        assert(entry_properties(tool_catalog()[9]) == JsonSpec::Object(Seq::empty().push(("text"@, prop_spec("string"@)))));
            if j == 0 {
            assert(k == "text"@);
            assert(member(v, "type"@) == Some(JsonSpec::Str("string"@)));
            assert(!read_as_integer(k));
        }
    }
    if i == 10 {
        assert(entry_properties(tool_catalog()[10]) == JsonSpec::Object(Seq::empty().push(("keys"@, prop_spec("string"@)))));
            if j == 0 {
            assert(k == "keys"@);
            assert(member(v, "type"@) == Some(JsonSpec::Str("string"@)));
            assert(!read_as_integer(k));
        }
    }
    if i == 11 {
        assert(entry_properties(tool_catalog()[11]) == JsonSpec::Object(Seq::empty().push(("direction"@, direction_spec())).push(("amount"@, described_spec("integer"@, "wheel clicks (default 3)"@)))));
            if j == 0 {
            assert(k == "direction"@);
            assert(member(v, "type"@) == Some(JsonSpec::Str("string"@)));
            assert(!read_as_integer(k));
        }
        if j == 1 {
            assert(k == "amount"@);
            assert(member(v, "type"@) == Some(JsonSpec::Str("integer"@)));
            assert(!read_as_text(k));
        }
    }
    if i == 12 {
        assert(entry_properties(tool_catalog()[12]) == JsonSpec::Object(Seq::empty().push(("ms"@, prop_spec("integer"@)))));
            if j == 0 {
            assert(k == "ms"@);
            assert(member(v, "type"@) == Some(JsonSpec::Str("integer"@)));
            assert(!read_as_text(k));
        }
    }
    if i == 13 {
        assert(entry_properties(tool_catalog()[13]) == JsonSpec::Object(Seq::empty().push(("command"@, described_spec("string"@, "the shell command line"@)))));
            if j == 0 {
            assert(k == "command"@);
            assert(member(v, "type"@) == Some(JsonSpec::Str("string"@)));
            assert(!read_as_integer(k));
        }
    }
    if i == 14 {
        assert(entry_properties(tool_catalog()[14]) == JsonSpec::Object(Seq::empty().push(("action"@, described_spec("string"@, "install | optimize | update | status | restart"@))).push(("args"@, described_spec("string"@, "e.g. 'codex', 'storage', 'ruview-server'"@)))));
            if j == 0 {
            assert(k == "action"@);
            assert(member(v, "type"@) == Some(JsonSpec::Str("string"@)));
            assert(!read_as_integer(k));
        }
        if j == 1 {
            assert(k == "args"@);
            assert(member(v, "type"@) == Some(JsonSpec::Str("string"@)));
            assert(!read_as_integer(k));
        }
    }
    if i == 15 {
        assert(entry_properties(tool_catalog()[15]) == JsonSpec::Object(Seq::empty().push(("width"@, described_spec("integer"@, "pixels wide (with height); even, 640..3840"@))).push(("height"@, described_spec("integer"@, "pixels tall (with width); even, 480..2160"@))).push(("preset"@, described_spec("string"@, "720p | 1080p | qxga | 1440p (use instead of width/height)"@))).push(("refresh"@, described_spec("integer"@, "refresh Hz (default 60)"@)))));
            if j == 0 {
            assert(k == "width"@);
            assert(member(v, "type"@) == Some(JsonSpec::Str("integer"@)));
            assert(!read_as_text(k));
        }
        if j == 1 {
            assert(k == "height"@);
            assert(member(v, "type"@) == Some(JsonSpec::Str("integer"@)));
            assert(!read_as_text(k));
        }
        if j == 2 {
            assert(k == "preset"@);
            assert(member(v, "type"@) == Some(JsonSpec::Str("string"@)));
            assert(!read_as_integer(k));
        }
        if j == 3 {
            assert(k == "refresh"@);
            assert(member(v, "type"@) == Some(JsonSpec::Str("integer"@)));
            assert(!read_as_text(k));
        }
    }
}

} // verus!
