//! The tool catalog advertised to `tools/list`.

use vstd::prelude::*;
use crate::json::{add_item, add_member, array, json_str, no_items, no_members, object, Json, JsonSpec};

verus! {

/// What `tools/list` says of `screenshot`.
pub const SCREENSHOT_DESC: &'static str = "Capture the desktop and return it as a PNG image.";

/// What `tools/list` says of `screen_size`.
pub const SCREEN_SIZE_DESC: &'static str = "Return the screen resolution as 'WIDTH HEIGHT'.";

/// What `tools/list` says of `cursor_position`.
pub const CURSOR_POSITION_DESC: &'static str = "Return the current mouse position as 'x y'.";

/// What `tools/list` says of `mouse_move`.
pub const MOUSE_MOVE_DESC: &'static str = "Move the mouse to (x, y).";

/// What `tools/list` says of `left_click`.
pub const LEFT_CLICK_DESC: &'static str = "Left-click. If x,y given, move there first.";

/// What `tools/list` says of `right_click`.
pub const RIGHT_CLICK_DESC: &'static str = "Right-click. If x,y given, move there first.";

/// What `tools/list` says of `middle_click`.
pub const MIDDLE_CLICK_DESC: &'static str = "Middle-click. If x,y given, move there first.";

/// What `tools/list` says of `double_click`.
pub const DOUBLE_CLICK_DESC: &'static str = "Double left-click. If x,y given, move there first.";

/// What `tools/list` says of `left_click_drag`.
pub const LEFT_CLICK_DRAG_DESC: &'static str = "Press left at (x,y), drag to (to_x,to_y), release.";

/// What `tools/list` says of `type_text`.
pub const TYPE_TEXT_DESC: &'static str = "Type a string of text at the current focus.";

/// What `tools/list` says of `key`.
pub const KEY_DESC: &'static str = "Press a key or chord in xdotool syntax, e.g. 'Return', 'ctrl+c', 'alt+Tab'.";

/// What `tools/list` says of `scroll`.
pub const SCROLL_DESC: &'static str = "Scroll the wheel. direction up|down|left|right, amount = clicks.";

/// What `tools/list` says of `wait`.
pub const WAIT_DESC: &'static str = "Sleep for ms milliseconds (max 10000).";

/// What `tools/list` says of `run_shell`.
pub const RUN_SHELL_DESC: &'static str = "Run an arbitrary shell command on the desktop and return its output. Full CLI/console access.";

/// What `tools/list` says of `system_action`.
pub const SYSTEM_ACTION_DESC: &'static str = "Run a named ruOS system action via the desktop executor. action = install|optimize|update|status|restart; args = e.g. a tool name ('codex') or 'storage'.";

/// What `tools/list` says of `desktop_resolution`.
pub const DESKTOP_RESOLUTION_DESC: &'static str = "Change the desktop resolution AFTER launch (server-side, via xrandr on the ruOS virtual display) — not a client-window resize. Give either width+height, or a preset (720p|1080p|qxga|1440p). Optional refresh (default 60 Hz). Custom sizes are bounded (even, 640..3840 x 480..2160) and rejected if they exceed the dummy driver's ~300 MHz pixel-clock ceiling.";


/// A property schema of type `ty`.
pub open spec fn prop_spec(ty: Seq<char>) -> JsonSpec {
    JsonSpec::Object(seq![("type"@, JsonSpec::Str(ty))])
}

/// A property schema of type `ty` with a description.
pub open spec fn described_spec(ty: Seq<char>, desc: Seq<char>) -> JsonSpec {
    JsonSpec::Object(seq![("type"@, JsonSpec::Str(ty))].push(("description"@, JsonSpec::Str(desc))))
}

/// The properties `x` and `y` of the pointer tools.
pub open spec fn xy_spec() -> JsonSpec {
    JsonSpec::Object(
        seq![("x"@, described_spec("integer"@, "X pixel (0 = left)"@))].push(
            ("y"@, described_spec("integer"@, "Y pixel (0 = top)"@)),
        ),
    )
}

fn type_prop(ty: &str) -> (r: Json)
    ensures
        r@ == prop_spec(ty@),
{
    let mut ms = no_members();
    add_member(&mut ms, "type", json_str(ty));
    let r = object(ms);
    assert(r@ =~= prop_spec(ty@));
    r
}

fn described_prop(ty: &str, desc: &str) -> (r: Json)
    ensures
        r@ == described_spec(ty@, desc@),
{
    let mut ms = no_members();
    add_member(&mut ms, "type", json_str(ty));
    add_member(&mut ms, "description", json_str(desc));
    let r = object(ms);
    assert(r@ =~= described_spec(ty@, desc@));
    r
}

fn xy_props() -> (r: Json)
    ensures
        r@ == xy_spec(),
{
    let mut ms = no_members();
    add_member(&mut ms, "x", described_prop("integer", "X pixel (0 = left)"));
    add_member(&mut ms, "y", described_prop("integer", "Y pixel (0 = top)"));
    let r = object(ms);
    assert(r@ =~= xy_spec());
    r
}


/// The `direction` property of `scroll`: a string out of four.
pub open spec fn direction_spec() -> JsonSpec {
    JsonSpec::Object(
        seq![("type"@, JsonSpec::Str("string"@))].push(
            (
                "enum"@,
                JsonSpec::Array(
                    Seq::empty().push(JsonSpec::Str("up"@)).push(JsonSpec::Str("down"@)).push(
                        JsonSpec::Str("left"@),
                    ).push(JsonSpec::Str("right"@)),
                ),
            ),
        ),
    )
}

/// One catalog entry: the tool's name, its description, and the schema of
/// its arguments (an object with `properties` and the `required` names).
pub open spec fn entry_spec(name: Seq<char>, desc: Seq<char>, props: JsonSpec, required: JsonSpec) -> JsonSpec {
    JsonSpec::Object(
        seq![("name"@, JsonSpec::Str(name))].push(("description"@, JsonSpec::Str(desc))).push(
            (
                "inputSchema"@,
                JsonSpec::Object(
                    seq![("type"@, JsonSpec::Str("object"@))].push(("properties"@, props)).push(
                        ("required"@, required),
                    ),
                ),
            ),
        ),
    )
}

/// The names of the tools, in catalog order.
pub open spec fn tool_names() -> Seq<Seq<char>> {
    Seq::empty().push("screenshot"@).push("screen_size"@).push("cursor_position"@).push("mouse_move"@).push("left_click"@).push("right_click"@).push("middle_click"@).push("double_click"@).push("left_click_drag"@).push("type_text"@).push("key"@).push("scroll"@).push("wait"@).push("run_shell"@).push("system_action"@).push("desktop_resolution"@)
}

/// The catalog that `tools/list` advertises, entry by entry.
pub open spec fn tool_catalog() -> Seq<JsonSpec> {
    Seq::empty()
        .push(entry_spec("screenshot"@, SCREENSHOT_DESC@, JsonSpec::Object(Seq::empty()), JsonSpec::Array(Seq::empty())))
        .push(entry_spec("screen_size"@, SCREEN_SIZE_DESC@, JsonSpec::Object(Seq::empty()), JsonSpec::Array(Seq::empty())))
        .push(entry_spec("cursor_position"@, CURSOR_POSITION_DESC@, JsonSpec::Object(Seq::empty()), JsonSpec::Array(Seq::empty())))
        .push(entry_spec("mouse_move"@, MOUSE_MOVE_DESC@, xy_spec(), JsonSpec::Array(Seq::empty().push(JsonSpec::Str("x"@)).push(JsonSpec::Str("y"@)))))
        .push(entry_spec("left_click"@, LEFT_CLICK_DESC@, xy_spec(), JsonSpec::Array(Seq::empty())))
        .push(entry_spec("right_click"@, RIGHT_CLICK_DESC@, xy_spec(), JsonSpec::Array(Seq::empty())))
        .push(entry_spec("middle_click"@, MIDDLE_CLICK_DESC@, xy_spec(), JsonSpec::Array(Seq::empty())))
        .push(entry_spec("double_click"@, DOUBLE_CLICK_DESC@, xy_spec(), JsonSpec::Array(Seq::empty())))
        .push(entry_spec("left_click_drag"@, LEFT_CLICK_DRAG_DESC@, JsonSpec::Object(Seq::empty().push(("x"@, prop_spec("integer"@))).push(("y"@, prop_spec("integer"@))).push(("to_x"@, prop_spec("integer"@))).push(("to_y"@, prop_spec("integer"@)))), JsonSpec::Array(Seq::empty().push(JsonSpec::Str("x"@)).push(JsonSpec::Str("y"@)).push(JsonSpec::Str("to_x"@)).push(JsonSpec::Str("to_y"@)))))
        .push(entry_spec("type_text"@, TYPE_TEXT_DESC@, JsonSpec::Object(Seq::empty().push(("text"@, prop_spec("string"@)))), JsonSpec::Array(Seq::empty().push(JsonSpec::Str("text"@)))))
        .push(entry_spec("key"@, KEY_DESC@, JsonSpec::Object(Seq::empty().push(("keys"@, prop_spec("string"@)))), JsonSpec::Array(Seq::empty().push(JsonSpec::Str("keys"@)))))
        .push(entry_spec("scroll"@, SCROLL_DESC@, JsonSpec::Object(Seq::empty().push(("direction"@, direction_spec())).push(("amount"@, described_spec("integer"@, "wheel clicks (default 3)"@)))), JsonSpec::Array(Seq::empty().push(JsonSpec::Str("direction"@)))))
        .push(entry_spec("wait"@, WAIT_DESC@, JsonSpec::Object(Seq::empty().push(("ms"@, prop_spec("integer"@)))), JsonSpec::Array(Seq::empty().push(JsonSpec::Str("ms"@)))))
        .push(entry_spec("run_shell"@, RUN_SHELL_DESC@, JsonSpec::Object(Seq::empty().push(("command"@, described_spec("string"@, "the shell command line"@)))), JsonSpec::Array(Seq::empty().push(JsonSpec::Str("command"@)))))
        .push(entry_spec("system_action"@, SYSTEM_ACTION_DESC@, JsonSpec::Object(Seq::empty().push(("action"@, described_spec("string"@, "install | optimize | update | status | restart"@))).push(("args"@, described_spec("string"@, "e.g. 'codex', 'storage', 'ruview-server'"@)))), JsonSpec::Array(Seq::empty().push(JsonSpec::Str("action"@)))))
        .push(entry_spec("desktop_resolution"@, DESKTOP_RESOLUTION_DESC@, JsonSpec::Object(Seq::empty().push(("width"@, described_spec("integer"@, "pixels wide (with height); even, 640..3840"@))).push(("height"@, described_spec("integer"@, "pixels tall (with width); even, 480..2160"@))).push(("preset"@, described_spec("string"@, "720p | 1080p | qxga | 1440p (use instead of width/height)"@))).push(("refresh"@, described_spec("integer"@, "refresh Hz (default 60)"@)))), JsonSpec::Array(Seq::empty())))
}

fn direction_prop() -> (r: Json)
    ensures
        r@ == direction_spec(),
{
    let mut choices = no_items();
    add_item(&mut choices, json_str("up"));
    add_item(&mut choices, json_str("down"));
    add_item(&mut choices, json_str("left"));
    add_item(&mut choices, json_str("right"));
    let mut ms = no_members();
    add_member(&mut ms, "type", json_str("string"));
    add_member(&mut ms, "enum", array(choices));
    let r = object(ms);
    assert(r@ =~= direction_spec());
    r
}

fn tool_entry(name: &str, desc: &str, props: Json, required: Json) -> (r: Json)
    ensures
        r@ == entry_spec(name@, desc@, props@, required@),
{
    let mut schema = no_members();
    add_member(&mut schema, "type", json_str("object"));
    add_member(&mut schema, "properties", props);
    add_member(&mut schema, "required", required);
    let mut ms = no_members();
    add_member(&mut ms, "name", json_str(name));
    add_member(&mut ms, "description", json_str(desc));
    add_member(&mut ms, "inputSchema", object(schema));
    let r = object(ms);
    assert(r@ =~= entry_spec(name@, desc@, props@, required@));
    r
}

/// The tool catalog advertised to `tools/list`.
pub fn tools() -> (r: Json)
    ensures
        r@ == JsonSpec::Array(tool_catalog()),
{
    let mut entries = no_items();
    {
        let mut ms = no_members();
        let props = object(ms);
        let mut rs = no_items();
        let required = array(rs);
        add_item(&mut entries, tool_entry("screenshot", SCREENSHOT_DESC, props, required));
    }
    {
        let mut ms = no_members();
        let props = object(ms);
        let mut rs = no_items();
        let required = array(rs);
        add_item(&mut entries, tool_entry("screen_size", SCREEN_SIZE_DESC, props, required));
    }
    {
        let mut ms = no_members();
        let props = object(ms);
        let mut rs = no_items();
        let required = array(rs);
        add_item(&mut entries, tool_entry("cursor_position", CURSOR_POSITION_DESC, props, required));
    }
    {
        let props = xy_props();
        let mut rs = no_items();
        add_item(&mut rs, json_str("x"));
        add_item(&mut rs, json_str("y"));
        let required = array(rs);
        add_item(&mut entries, tool_entry("mouse_move", MOUSE_MOVE_DESC, props, required));
    }
    {
        let props = xy_props();
        let mut rs = no_items();
        let required = array(rs);
        add_item(&mut entries, tool_entry("left_click", LEFT_CLICK_DESC, props, required));
    }
    {
        let props = xy_props();
        let mut rs = no_items();
        let required = array(rs);
        add_item(&mut entries, tool_entry("right_click", RIGHT_CLICK_DESC, props, required));
    }
    {
        let props = xy_props();
        let mut rs = no_items();
        let required = array(rs);
        add_item(&mut entries, tool_entry("middle_click", MIDDLE_CLICK_DESC, props, required));
    }
    {
        let props = xy_props();
        let mut rs = no_items();
        let required = array(rs);
        add_item(&mut entries, tool_entry("double_click", DOUBLE_CLICK_DESC, props, required));
    }
    {
        let mut ms = no_members();
        add_member(&mut ms, "x", type_prop("integer"));
        add_member(&mut ms, "y", type_prop("integer"));
        add_member(&mut ms, "to_x", type_prop("integer"));
        add_member(&mut ms, "to_y", type_prop("integer"));
        let props = object(ms);
        let mut rs = no_items();
        add_item(&mut rs, json_str("x"));
        add_item(&mut rs, json_str("y"));
        add_item(&mut rs, json_str("to_x"));
        add_item(&mut rs, json_str("to_y"));
        let required = array(rs);
        add_item(&mut entries, tool_entry("left_click_drag", LEFT_CLICK_DRAG_DESC, props, required));
    }
    {
        let mut ms = no_members();
        add_member(&mut ms, "text", type_prop("string"));
        let props = object(ms);
        let mut rs = no_items();
        add_item(&mut rs, json_str("text"));
        let required = array(rs);
        add_item(&mut entries, tool_entry("type_text", TYPE_TEXT_DESC, props, required));
    }
    {
        let mut ms = no_members();
        add_member(&mut ms, "keys", type_prop("string"));
        let props = object(ms);
        let mut rs = no_items();
        add_item(&mut rs, json_str("keys"));
        let required = array(rs);
        add_item(&mut entries, tool_entry("key", KEY_DESC, props, required));
    }
    {
        let mut ms = no_members();
        add_member(&mut ms, "direction", direction_prop());
        add_member(&mut ms, "amount", described_prop("integer", "wheel clicks (default 3)"));
        let props = object(ms);
        let mut rs = no_items();
        add_item(&mut rs, json_str("direction"));
        let required = array(rs);
        add_item(&mut entries, tool_entry("scroll", SCROLL_DESC, props, required));
    }
    {
        let mut ms = no_members();
        add_member(&mut ms, "ms", type_prop("integer"));
        let props = object(ms);
        let mut rs = no_items();
        add_item(&mut rs, json_str("ms"));
        let required = array(rs);
        add_item(&mut entries, tool_entry("wait", WAIT_DESC, props, required));
    }
    {
        let mut ms = no_members();
        add_member(&mut ms, "command", described_prop("string", "the shell command line"));
        let props = object(ms);
        let mut rs = no_items();
        add_item(&mut rs, json_str("command"));
        let required = array(rs);
        add_item(&mut entries, tool_entry("run_shell", RUN_SHELL_DESC, props, required));
    }
    {
        let mut ms = no_members();
        add_member(&mut ms, "action", described_prop("string", "install | optimize | update | status | restart"));
        add_member(&mut ms, "args", described_prop("string", "e.g. 'codex', 'storage', 'ruview-server'"));
        let props = object(ms);
        let mut rs = no_items();
        add_item(&mut rs, json_str("action"));
        let required = array(rs);
        add_item(&mut entries, tool_entry("system_action", SYSTEM_ACTION_DESC, props, required));
    }
    {
        let mut ms = no_members();
        add_member(&mut ms, "width", described_prop("integer", "pixels wide (with height); even, 640..3840"));
        add_member(&mut ms, "height", described_prop("integer", "pixels tall (with width); even, 480..2160"));
        add_member(&mut ms, "preset", described_prop("string", "720p | 1080p | qxga | 1440p (use instead of width/height)"));
        add_member(&mut ms, "refresh", described_prop("integer", "refresh Hz (default 60)"));
        let props = object(ms);
        let mut rs = no_items();
        let required = array(rs);
        add_item(&mut entries, tool_entry("desktop_resolution", DESKTOP_RESOLUTION_DESC, props, required));
    }
    let r = array(entries);
    assert(r@ =~= JsonSpec::Array(tool_catalog()));
    r
}

} // verus!
