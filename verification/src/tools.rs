//! What each tool call does: the step it asks of the machine (a shell command,
//! a screenshot, a pause) and the result it makes of that step's outcome.

use vstd::prelude::*;
use base64::Engine;
use crate::json::{
    add_flat_member, add_item, add_member, array, as_i, as_s, flat_object_text, int_member,
    json_str, key_less, lemma_keys_increasing_push, no_flat_members, no_items,
    flat_members_view, no_members, object, object_text, str_member, Json, JsonSpec, Scalar,
    ScalarSpec,
};
use crate::encoding::{base64_len, base64_standard};
use crate::shell::{shell_quoted, shq};
use crate::text::{blank, decimal, int_text, is_blank, same_text, trim, trimmed};

verus! {

/// Where the screenshot tools write the picture.
pub const SHOT: &'static str = "/tmp/ruos-cu-shot.png";

/// The desktop executor's command endpoint.
pub const EXECUTOR: &'static str = "http://127.0.0.1:17870/api/command";

/// The desktop executor's resolution endpoint.
pub const RESOLUTION: &'static str = "http://127.0.0.1:17870/api/desktop/resolution";

/// The answer when the desktop executor printed nothing.
pub const NO_EXECUTOR: &'static str = "no response from the desktop executor (is ruos-welcome running?)";

/// The answer when a screenshot could not be taken.
pub const NO_SCREENSHOT: &'static str = "screenshot failed — no scrot/gnome-screenshot/imagemagick, or no X display";

/// How a shell command's outcome becomes the tool's result.
#[derive(Debug)]
pub enum Finish {
    /// On success the trimmed output, on failure the output as an error.
    Trimmed,
    /// On success this message, on failure the output as an error.
    Message(String),
    /// The output whether or not the command succeeded, or this text when the
    /// output is blank.
    Output(String),
}

/// The view of a `Finish`.
pub enum FinishSpec {
    Trimmed,
    Message(Seq<char>),
    Output(Seq<char>),
}

impl View for Finish {
    type V = FinishSpec;

    open spec fn view(&self) -> FinishSpec {
        match self {
            Finish::Trimmed => FinishSpec::Trimmed,
            Finish::Message(m) => FinishSpec::Message(m@),
            Finish::Output(f) => FinishSpec::Output(f@),
        }
    }
}

/// What a tool call asks of the machine.
#[derive(Debug)]
pub enum ToolStep {
    /// Nothing: this is the result.
    Done(Json),
    /// Take a screenshot (see `capture_command` and `capture`).
    Screenshot,
    /// Run this shell command, then finish as said.
    Shell(String, Finish),
    /// Sleep this many milliseconds; then this is the result.
    Sleep(u64, Json),
}

/// The view of a `ToolStep`.
pub enum StepSpec {
    Done(JsonSpec),
    Screenshot,
    Shell(Seq<char>, FinishSpec),
    Sleep(u64, JsonSpec),
}

impl View for ToolStep {
    type V = StepSpec;

    open spec fn view(&self) -> StepSpec {
        match self {
            ToolStep::Done(j) => StepSpec::Done(j@),
            ToolStep::Screenshot => StepSpec::Screenshot,
            ToolStep::Shell(c, f) => StepSpec::Shell(c@, f@),
            ToolStep::Sleep(ms, j) => StepSpec::Sleep(*ms, j@),
        }
    }
}

/// The `content` of a text result.
pub open spec fn text_content(s: Seq<char>) -> JsonSpec {
    JsonSpec::Array(
        seq![JsonSpec::Object(seq![("type"@, JsonSpec::Str("text"@))].push(("text"@, JsonSpec::Str(s))))],
    )
}

/// A tool result holding the text `s`, flagged `isError` when `is_error`.
pub open spec fn text_result(s: Seq<char>, is_error: bool) -> JsonSpec {
    if is_error {
        JsonSpec::Object(seq![("content"@, text_content(s))].push(("isError"@, JsonSpec::Bool(true))))
    } else {
        JsonSpec::Object(seq![("content"@, text_content(s))])
    }
}

/// A tool result holding a PNG image given in base64.
pub open spec fn image_result(data: Seq<char>) -> JsonSpec {
    JsonSpec::Object(
        seq![
            (
                "content"@,
                JsonSpec::Array(
                    seq![
                        JsonSpec::Object(
                            seq![("type"@, JsonSpec::Str("image"@))].push(
                                ("data"@, JsonSpec::Str(data)),
                            ).push(("mimeType"@, JsonSpec::Str("image/png"@))),
                        ),
                    ],
                ),
            ),
        ],
    )
}

fn text_json(s: &str, is_error: bool) -> (r: Json)
    ensures
        r@ == text_result(s@, is_error),
{
    let mut item = no_members();
    add_member(&mut item, "type", json_str("text"));
    add_member(&mut item, "text", json_str(s));
    let mut content = no_items();
    add_item(&mut content, object(item));
    let mut ms = no_members();
    add_member(&mut ms, "content", array(content));
    if is_error {
        add_member(&mut ms, "isError", Json::Bool(true));
    }
    let r = object(ms);
    assert(r@ =~= text_result(s@, is_error));
    r
}

/// A text result.
pub fn text(s: &str) -> (r: Json)
    ensures
        r@ == text_result(s@, false),
{
    text_json(s, false)
}

/// A text result flagged as an error.
pub fn text_err(s: &str) -> (r: Json)
    ensures
        r@ == text_result(s@, true),
{
    text_json(s, true)
}

/// The image result for the base64 text `data`.
pub fn image(data: &str) -> (r: Json)
    ensures
        r@ == image_result(data@),
{
    let mut item = no_members();
    add_member(&mut item, "type", json_str("image"));
    add_member(&mut item, "data", json_str(data));
    add_member(&mut item, "mimeType", json_str("image/png"));
    let mut content = no_items();
    add_item(&mut content, object(item));
    let mut ms = no_members();
    add_member(&mut ms, "content", array(content));
    let r = object(ms);
    assert(r@ =~= image_result(data@));
    r
}


/// `v`, or `d` when there is none.
pub open spec fn or_default(v: Option<i64>, d: i64) -> i64 {
    match v {
        Some(x) => x,
        None => d,
    }
}

/// `x` brought into `lo..=hi`, as `i64::clamp` does.
pub open spec fn clamped(x: i64, lo: i64, hi: i64) -> i64 {
    if x < lo {
        lo
    } else if x > hi {
        hi
    } else {
        x
    }
}

fn clamp(x: i64, lo: i64, hi: i64) -> (r: i64)
    requires
        lo <= hi,
    ensures
        r == clamped(x, lo, hi),
{
    if x < lo {
        lo
    } else if x > hi {
        hi
    } else {
        x
    }
}

/// `"xdotool mousemove X Y && "` when both `x` and `y` are given.
pub open spec fn move_prefix(args: JsonSpec) -> Seq<char> {
    match (int_member(args, "x"@), int_member(args, "y"@)) {
        (Some(x), Some(y)) => "xdotool mousemove "@ + decimal(x as int) + " "@ + decimal(y as int)
            + " && "@,
        _ => Seq::empty(),
    }
}

/// The mouse button that a click tool presses.
pub open spec fn click_button(name: Seq<char>) -> int {
    if name == "right_click"@ {
        3
    } else if name == "middle_click"@ {
        2
    } else {
        1
    }
}

/// The xdotool click of a click tool.
pub open spec fn click_command(name: Seq<char>) -> Seq<char> {
    if name == "double_click"@ {
        "xdotool click --repeat 2 1"@
    } else {
        "xdotool click "@ + decimal(click_button(name))
    }
}

/// `mouse_move`: move to (x, y), each 0 when not given.
pub open spec fn mouse_move_plan(args: JsonSpec) -> StepSpec {
    let x = or_default(int_member(args, "x"@), 0) as int;
    let y = or_default(int_member(args, "y"@), 0) as int;
    StepSpec::Shell(
        "xdotool mousemove "@ + decimal(x) + " "@ + decimal(y),
        FinishSpec::Message("moved to "@ + decimal(x) + " "@ + decimal(y)),
    )
}

/// The click tools: move first when x and y are given, then click.
pub open spec fn click_plan(name: Seq<char>, args: JsonSpec) -> StepSpec {
    StepSpec::Shell(
        move_prefix(args) + click_command(name),
        FinishSpec::Message(name + " done"@),
    )
}

/// `left_click_drag`: press at (x, y), move to (to_x, to_y), release.
pub open spec fn drag_plan(args: JsonSpec) -> StepSpec {
    let x = decimal(or_default(int_member(args, "x"@), 0) as int);
    let y = decimal(or_default(int_member(args, "y"@), 0) as int);
    let tx = decimal(or_default(int_member(args, "to_x"@), 0) as int);
    let ty = decimal(or_default(int_member(args, "to_y"@), 0) as int);
    StepSpec::Shell(
        "xdotool mousemove "@ + x + " "@ + y + " mousedown 1 mousemove "@ + tx + " "@ + ty
            + " mouseup 1"@,
        FinishSpec::Message("dragged "@ + x + ","@ + y + " -> "@ + tx + ","@ + ty),
    )
}

/// `type_text`: type the text, handed to xdotool as one quoted word.
pub open spec fn type_text_plan(args: JsonSpec) -> StepSpec {
    StepSpec::Shell(
        "xdotool type --clearmodifiers -- "@ + shell_quoted(str_member(args, "text"@)),
        FinishSpec::Message("typed"@),
    )
}

/// `key`: press the keys, which must be given.
pub open spec fn key_plan(args: JsonSpec) -> StepSpec {
    let k = str_member(args, "keys"@);
    if k.len() == 0 {
        StepSpec::Done(text_result("keys required"@, true))
    } else {
        StepSpec::Shell(
            "xdotool key --clearmodifiers -- "@ + shell_quoted(k),
            FinishSpec::Message("pressed "@ + k),
        )
    }
}

/// The wheel button for a scroll direction (down when unknown).
pub open spec fn scroll_button(dir: Seq<char>) -> int {
    if dir == "up"@ {
        4
    } else if dir == "down"@ {
        5
    } else if dir == "left"@ {
        6
    } else if dir == "right"@ {
        7
    } else {
        5
    }
}

/// How many wheel clicks `scroll` makes: `amount` (3 when not given) brought
/// into 1..=100.
pub open spec fn scroll_amount(args: JsonSpec) -> i64 {
    clamped(or_default(int_member(args, "amount"@), 3), 1, 100)
}

/// `scroll`: click the wheel button that many times.
pub open spec fn scroll_plan(args: JsonSpec) -> StepSpec {
    let dir = str_member(args, "direction"@);
    let amt = decimal(scroll_amount(args) as int);
    StepSpec::Shell(
        "xdotool click --repeat "@ + amt + " "@ + decimal(scroll_button(dir)),
        FinishSpec::Message("scrolled "@ + dir + " x"@ + amt),
    )
}

/// How long `wait` sleeps: `ms` (0 when not given) brought into 0..=10000.
pub open spec fn wait_millis(args: JsonSpec) -> i64 {
    clamped(or_default(int_member(args, "ms"@), 0), 0, 10000)
}

/// `wait`: sleep, then say so.
pub open spec fn wait_plan(args: JsonSpec) -> StepSpec {
    let ms = wait_millis(args);
    StepSpec::Sleep(ms as u64, text_result("waited "@ + decimal(ms as int) + "ms"@, false))
}

/// `run_shell`: run the command, which must be given, and answer its output.
pub open spec fn run_shell_plan(args: JsonSpec) -> StepSpec {
    let c = str_member(args, "command"@);
    if c.len() == 0 {
        StepSpec::Done(text_result("command required"@, true))
    } else {
        StepSpec::Shell(c, FinishSpec::Output("(no output)"@))
    }
}

/// The members of the request sent to the executor.
pub open spec fn action_members(action: Seq<char>, a: Seq<char>) -> Seq<(Seq<char>, ScalarSpec)> {
    seq![("action"@, ScalarSpec::Text(action))].push(("args"@, ScalarSpec::Text(a)))
}

/// The JSON text `{"action":…,"args":…}` sent to the executor.
pub open spec fn action_body(action: Seq<char>, a: Seq<char>) -> Seq<char> {
    object_text(action_members(action, a))
}

/// The `curl` command that posts `body` to `url` within `seconds`.
pub open spec fn post_command(seconds: Seq<char>, body: Seq<char>, url: Seq<char>) -> Seq<char> {
    "curl -s --max-time "@ + seconds + " -H 'Content-Type: application/json' -d "@ + shell_quoted(
        body,
    ) + " "@ + url
}

/// `system_action`: post the action, which must be given, to the executor.
pub open spec fn system_action_plan(args: JsonSpec) -> StepSpec {
    let action = str_member(args, "action"@);
    if action.len() == 0 {
        StepSpec::Done(text_result("action required"@, true))
    } else {
        StepSpec::Shell(
            post_command("300"@, action_body(action, str_member(args, "args"@)), EXECUTOR@),
            FinishSpec::Output(NO_EXECUTOR@),
        )
    }
}

/// The member `key` of the resolution request for an integer given under
/// `key`, if it is.
pub open spec fn int_field(args: JsonSpec, key: Seq<char>) -> Seq<(Seq<char>, ScalarSpec)> {
    match int_member(args, key) {
        Some(v) => seq![(key, ScalarSpec::Int(v))],
        None => Seq::empty(),
    }
}

/// The members of the resolution request: height, preset, refresh, width,
/// each only when given (an integer, or for the preset a non-empty text).
pub open spec fn resolution_members(args: JsonSpec) -> Seq<(Seq<char>, ScalarSpec)> {
    let p = str_member(args, "preset"@);
    int_field(args, "height"@) + (if p.len() > 0 {
        seq![("preset"@, ScalarSpec::Text(p))]
    } else {
        Seq::empty()
    }) + int_field(args, "refresh"@) + int_field(args, "width"@)
}

/// `desktop_resolution`: post what was given to the resolution endpoint;
/// something must be given.
pub open spec fn resolution_plan(args: JsonSpec) -> StepSpec {
    let fields = resolution_members(args);
    if fields.len() == 0 {
        StepSpec::Done(text_result("give width+height or a preset (720p|1080p|qxga|1440p)"@, true))
    } else {
        StepSpec::Shell(
            post_command("60"@, object_text(fields), RESOLUTION@),
            FinishSpec::Output(NO_EXECUTOR@),
        )
    }
}

/// The command that takes a screenshot into `SHOT` with whichever tool is
/// present.
pub open spec fn capture_command_text() -> Seq<char> {
    "scrot -o -q 70 "@ + SHOT@ + " 2>/dev/null || gnome-screenshot -f "@ + SHOT@
        + " 2>/dev/null || import -silent -window root "@ + SHOT@ + " 2>/dev/null"@
}

/// What a call of the tool `name` with `args` does.
pub open spec fn tool_plan(name: Seq<char>, args: JsonSpec) -> StepSpec {
    if name == "screenshot"@ {
        StepSpec::Screenshot
    } else if name == "screen_size"@ {
        StepSpec::Shell("xdotool getdisplaygeometry"@, FinishSpec::Trimmed)
    } else if name == "cursor_position"@ {
        StepSpec::Shell(
            "xdotool getmouselocation --shell | sed -n '1,2p' | cut -d= -f2 | paste -sd' '"@,
            FinishSpec::Trimmed,
        )
    } else if name == "mouse_move"@ {
        mouse_move_plan(args)
    } else if name == "left_click"@ || name == "right_click"@ || name == "middle_click"@ || name
        == "double_click"@ {
        click_plan(name, args)
    } else if name == "left_click_drag"@ {
        drag_plan(args)
    } else if name == "type_text"@ {
        type_text_plan(args)
    } else if name == "key"@ {
        key_plan(args)
    } else if name == "scroll"@ {
        scroll_plan(args)
    } else if name == "wait"@ {
        wait_plan(args)
    } else if name == "run_shell"@ {
        run_shell_plan(args)
    } else if name == "system_action"@ {
        system_action_plan(args)
    } else if name == "desktop_resolution"@ {
        resolution_plan(args)
    } else {
        StepSpec::Done(text_result("unknown tool '"@ + name + "'"@, true))
    }
}


/// `s` as an owned text.
fn owned(s: &str) -> (r: String)
    ensures
        r@ == s@,
{
    String::from_str(s)
}

fn move_prefix_text(args: &Json) -> (r: String)
    ensures
        r@ == move_prefix(args@),
{
    match (as_i(args, "x"), as_i(args, "y")) {
        (Some(x), Some(y)) => {
            let mut r = owned("xdotool mousemove ");
            r.append(int_text(x).as_str());
            r.append(" ");
            r.append(int_text(y).as_str());
            r.append(" && ");
            r
        },
        _ => {
            proof {
                reveal_strlit("");
            }
            owned("")
        },
    }
}

fn int_or(v: Option<i64>, d: i64) -> (r: i64)
    ensures
        r == or_default(v, d),
{
    match v {
        Some(x) => x,
        None => d,
    }
}

fn plan_mouse_move(args: &Json) -> (r: ToolStep)
    ensures
        r@ == mouse_move_plan(args@),
{
    let xs = int_text(int_or(as_i(args, "x"), 0));
    let ys = int_text(int_or(as_i(args, "y"), 0));
    let mut cmd = owned("xdotool mousemove ");
    cmd.append(xs.as_str());
    cmd.append(" ");
    cmd.append(ys.as_str());
    let mut msg = owned("moved to ");
    msg.append(xs.as_str());
    msg.append(" ");
    msg.append(ys.as_str());
    ToolStep::Shell(cmd, Finish::Message(msg))
}

fn plan_click(name: &str, args: &Json) -> (r: ToolStep)
    ensures
        r@ == click_plan(name@, args@),
{
    let mut cmd = move_prefix_text(args);
    if same_text(name, "double_click") {
        cmd.append("xdotool click --repeat 2 1");
    } else {
        let btn: i64 = if same_text(name, "right_click") {
            3
        } else if same_text(name, "middle_click") {
            2
        } else {
            1
        };
        cmd.append("xdotool click ");
        cmd.append(int_text(btn).as_str());
    }
    assert(cmd@ =~= move_prefix(args@) + click_command(name@));
    let mut msg = owned(name);
    msg.append(" done");
    ToolStep::Shell(cmd, Finish::Message(msg))
}

fn plan_drag(args: &Json) -> (r: ToolStep)
    ensures
        r@ == drag_plan(args@),
{
    let x = int_text(int_or(as_i(args, "x"), 0));
    let y = int_text(int_or(as_i(args, "y"), 0));
    let tx = int_text(int_or(as_i(args, "to_x"), 0));
    let ty = int_text(int_or(as_i(args, "to_y"), 0));
    let mut cmd = owned("xdotool mousemove ");
    cmd.append(x.as_str());
    cmd.append(" ");
    cmd.append(y.as_str());
    cmd.append(" mousedown 1 mousemove ");
    cmd.append(tx.as_str());
    cmd.append(" ");
    cmd.append(ty.as_str());
    cmd.append(" mouseup 1");
    let mut msg = owned("dragged ");
    msg.append(x.as_str());
    msg.append(",");
    msg.append(y.as_str());
    msg.append(" -> ");
    msg.append(tx.as_str());
    msg.append(",");
    msg.append(ty.as_str());
    ToolStep::Shell(cmd, Finish::Message(msg))
}

fn plan_type_text(args: &Json) -> (r: ToolStep)
    ensures
        r@ == type_text_plan(args@),
{
    let t = as_s(args, "text");
    let mut cmd = owned("xdotool type --clearmodifiers -- ");
    cmd.append(shq(t).as_str());
    ToolStep::Shell(cmd, Finish::Message(owned("typed")))
}

fn plan_key(args: &Json) -> (r: ToolStep)
    ensures
        r@ == key_plan(args@),
{
    let k = as_s(args, "keys");
    if k.unicode_len() == 0 {
        return ToolStep::Done(text_err("keys required"));
    }
    let mut cmd = owned("xdotool key --clearmodifiers -- ");
    cmd.append(shq(k).as_str());
    let mut msg = owned("pressed ");
    msg.append(k);
    ToolStep::Shell(cmd, Finish::Message(msg))
}

fn plan_scroll(args: &Json) -> (r: ToolStep)
    ensures
        r@ == scroll_plan(args@),
{
    let dir = as_s(args, "direction");
    let amt = int_text(clamp(int_or(as_i(args, "amount"), 3), 1, 100));
    let btn: i64 = if same_text(dir, "up") {
        4
    } else if same_text(dir, "down") {
        5
    } else if same_text(dir, "left") {
        6
    } else if same_text(dir, "right") {
        7
    } else {
        5
    };
    let mut cmd = owned("xdotool click --repeat ");
    cmd.append(amt.as_str());
    cmd.append(" ");
    cmd.append(int_text(btn).as_str());
    let mut msg = owned("scrolled ");
    msg.append(dir);
    msg.append(" x");
    msg.append(amt.as_str());
    ToolStep::Shell(cmd, Finish::Message(msg))
}

fn plan_wait(args: &Json) -> (r: ToolStep)
    ensures
        r@ == wait_plan(args@),
{
    let ms = clamp(int_or(as_i(args, "ms"), 0), 0, 10000);
    let mut msg = owned("waited ");
    msg.append(int_text(ms).as_str());
    msg.append("ms");
    ToolStep::Sleep(ms as u64, text(msg.as_str()))
}

fn plan_run_shell(args: &Json) -> (r: ToolStep)
    ensures
        r@ == run_shell_plan(args@),
{
    let c = as_s(args, "command");
    if c.unicode_len() == 0 {
        return ToolStep::Done(text_err("command required"));
    }
    ToolStep::Shell(owned(c), Finish::Output(owned("(no output)")))
}

fn post(seconds: &str, body: &str, url: &str) -> (r: String)
    ensures
        r@ == post_command(seconds@, body@, url@),
{
    let mut cmd = owned("curl -s --max-time ");
    cmd.append(seconds);
    cmd.append(" -H 'Content-Type: application/json' -d ");
    cmd.append(shq(body).as_str());
    cmd.append(" ");
    cmd.append(url);
    cmd
}

fn plan_system_action(args: &Json) -> (r: ToolStep)
    ensures
        r@ == system_action_plan(args@),
{
    let action = as_s(args, "action");
    let a = as_s(args, "args");
    if action.unicode_len() == 0 {
        return ToolStep::Done(text_err("action required"));
    }
    let mut members = no_flat_members();
    add_flat_member(&mut members, "action", Scalar::Text(owned(action)));
    add_flat_member(&mut members, "args", Scalar::Text(owned(a)));
    proof {
        reveal_strlit("action");
        reveal_strlit("args");
        assert(key_less("action"@.drop_first(), "args"@.drop_first()));
        assert(flat_members_view(members@) =~= action_members(action@, a@));
    }
    let body = flat_object_text(&members);
    ToolStep::Shell(post("300", body.as_str(), EXECUTOR), Finish::Output(owned(NO_EXECUTOR)))
}

/// The four keys of the resolution request come in increasing order.
proof fn lemma_resolution_key_order()
    ensures
        key_less("height"@, "preset"@),
        key_less("height"@, "refresh"@),
        key_less("height"@, "width"@),
        key_less("preset"@, "refresh"@),
        key_less("preset"@, "width"@),
        key_less("refresh"@, "width"@),
{
    reveal_strlit("height");
    reveal_strlit("preset");
    reveal_strlit("refresh");
    reveal_strlit("width");
}

fn plan_resolution(args: &Json) -> (r: ToolStep)
    ensures
        r@ == resolution_plan(args@),
{
    proof {
        lemma_resolution_key_order();
    }
    let mut members = no_flat_members();
    let height = as_i(args, "height");
    if let Some(v) = height {
        proof {
            lemma_keys_increasing_push(flat_members_view(members@), ("height"@, ScalarSpec::Int(v)));
        }
        add_flat_member(&mut members, "height", Scalar::Int(v));
    }
    assert(flat_members_view(members@) =~= int_field(args@, "height"@));
    assert(forall|i: int| 0 <= i < flat_members_view(members@).len() ==> #[trigger] flat_members_view(members@)[i].0 == "height"@);
    let p = as_s(args, "preset");
    if p.unicode_len() > 0 {
        proof {
            lemma_keys_increasing_push(flat_members_view(members@), ("preset"@, ScalarSpec::Text(p@)));
        }
        add_flat_member(&mut members, "preset", Scalar::Text(owned(p)));
    }
    let ghost hp = flat_members_view(members@);
    assert(forall|i: int| 0 <= i < hp.len() ==> #[trigger] hp[i].0 == "height"@ || hp[i].0 == "preset"@);
    let refresh = as_i(args, "refresh");
    if let Some(v) = refresh {
        proof {
            lemma_keys_increasing_push(flat_members_view(members@), ("refresh"@, ScalarSpec::Int(v)));
        }
        add_flat_member(&mut members, "refresh", Scalar::Int(v));
    }
    let ghost hpr = flat_members_view(members@);
    assert(forall|i: int| 0 <= i < hpr.len() ==> #[trigger] hpr[i].0 == "height"@ || hpr[i].0 == "preset"@ || hpr[i].0 == "refresh"@);
    let width = as_i(args, "width");
    if let Some(v) = width {
        proof {
            lemma_keys_increasing_push(flat_members_view(members@), ("width"@, ScalarSpec::Int(v)));
        }
        add_flat_member(&mut members, "width", Scalar::Int(v));
    }
    assert(flat_members_view(members@) =~= resolution_members(args@));
    if members.len() == 0 {
        return ToolStep::Done(text_err("give width+height or a preset (720p|1080p|qxga|1440p)"));
    }
    let payload = flat_object_text(&members);
    ToolStep::Shell(post("60", payload.as_str(), RESOLUTION), Finish::Output(owned(NO_EXECUTOR)))
}

/// Decides what one tool call does (the `tools/call` of the tool `name` with
/// the arguments `args`).
pub fn call_tool(name: &str, args: &Json) -> (r: ToolStep)
    ensures
        r@ == tool_plan(name@, args@),
{
    if same_text(name, "screenshot") {
        ToolStep::Screenshot
    } else if same_text(name, "screen_size") {
        ToolStep::Shell(owned("xdotool getdisplaygeometry"), Finish::Trimmed)
    } else if same_text(name, "cursor_position") {
        ToolStep::Shell(
            owned("xdotool getmouselocation --shell | sed -n '1,2p' | cut -d= -f2 | paste -sd' '"),
            Finish::Trimmed,
        )
    } else if same_text(name, "mouse_move") {
        plan_mouse_move(args)
    } else if same_text(name, "left_click") || same_text(name, "right_click") || same_text(
        name,
        "middle_click",
    ) || same_text(name, "double_click") {
        plan_click(name, args)
    } else if same_text(name, "left_click_drag") {
        plan_drag(args)
    } else if same_text(name, "type_text") {
        plan_type_text(args)
    } else if same_text(name, "key") {
        plan_key(args)
    } else if same_text(name, "scroll") {
        plan_scroll(args)
    } else if same_text(name, "wait") {
        plan_wait(args)
    } else if same_text(name, "run_shell") {
        plan_run_shell(args)
    } else if same_text(name, "system_action") {
        plan_system_action(args)
    } else if same_text(name, "desktop_resolution") {
        plan_resolution(args)
    } else {
        let mut msg = owned("unknown tool '");
        msg.append(name);
        msg.append("'");
        ToolStep::Done(text_err(msg.as_str()))
    }
}


/// The result of a tool that ran the shell command, given whether it
/// succeeded and what it printed.
pub open spec fn shell_result(f: FinishSpec, ok: bool, out: Seq<char>) -> JsonSpec {
    match f {
        FinishSpec::Trimmed => if ok {
            text_result(trimmed(out), false)
        } else {
            text_result(out, true)
        },
        FinishSpec::Message(m) => if ok {
            text_result(m, false)
        } else {
            text_result(out, true)
        },
        FinishSpec::Output(fallback) => text_result(
            if blank(out) {
                fallback
            } else {
                out
            },
            false,
        ),
    }
}

/// The result of a tool whose shell command ran with the outcome `ok`, `out`.
pub fn finish_shell(f: &Finish, ok: bool, out: &str) -> (r: Json)
    ensures
        r@ == shell_result(f@, ok, out@),
{
    match f {
        Finish::Trimmed => if ok {
            text(trim(out).as_str())
        } else {
            text_err(out)
        },
        Finish::Message(m) => if ok {
            text(m.as_str())
        } else {
            text_err(out)
        },
        Finish::Output(fallback) => if is_blank(out) {
            text(fallback.as_str())
        } else {
            text(out)
        },
    }
}

/// The command that takes a screenshot into `SHOT` with whichever of scrot,
/// gnome-screenshot and ImageMagick is present.
pub fn capture_command() -> (r: String)
    ensures
        r@ == capture_command_text(),
{
    let mut cmd = owned("scrot -o -q 70 ");
    cmd.append(SHOT);
    cmd.append(" 2>/dev/null || gnome-screenshot -f ");
    cmd.append(SHOT);
    cmd.append(" 2>/dev/null || import -silent -window root ");
    cmd.append(SHOT);
    cmd.append(" 2>/dev/null");
    cmd
}

/// Trusted: `base64::engine::general_purpose::STANDARD.encode` (base64 0.22).
/// `STANDARD` is the RFC 4648 standard alphabet with `=` padding, so the text
/// is `base64_standard` of the bytes: three bytes to four digits, a last one
/// or two bytes to two or three digits and padding, four characters for every
/// three bytes or part of three. The crate panics when that length overflows
/// `usize`, which `requires` rules out.
#[verifier::external_body]
fn base64_encode(bytes: &[u8]) -> (r: String)
    requires
        base64_len(bytes@.len()) <= usize::MAX,
    ensures
        r@ == base64_standard(bytes@),
        r@.len() == base64_len(bytes@.len()),
{
    base64::engine::general_purpose::STANDARD.encode(bytes)
}

/// What a screenshot gives once the picture file was read (`None` when it
/// could not be): the picture in base64, or why there is none (a missing or
/// empty file).
pub fn capture(read: Option<Vec<u8>>) -> (r: Result<String, String>)
    requires
        read matches Some(b) ==> base64_len(b@.len()) <= usize::MAX,
    ensures
        match read {
            Some(b) => if b@.len() > 0 {
                r matches Ok(t) && t@ == base64_standard(b@)
            } else {
                r matches Err(e) && e@ == NO_SCREENSHOT@
            },
            None => r matches Err(e) && e@ == NO_SCREENSHOT@,
        },
{
    match read {
        Some(bytes) => {
            if bytes.len() > 0 {
                Ok(base64_encode(bytes.as_slice()))
            } else {
                Err(owned(NO_SCREENSHOT))
            }
        },
        None => Err(owned(NO_SCREENSHOT)),
    }
}

/// The result of the `screenshot` tool.
pub fn screenshot_result(shot: &Result<String, String>) -> (r: Json)
    ensures
        r@ == match shot {
            Ok(b64) => image_result(b64@),
            Err(e) => text_result(e@, true),
        },
{
    match shot {
        Ok(b64) => image(b64.as_str()),
        Err(e) => text_err(e.as_str()),
    }
}

} // verus!
