use ruos_mcp::catalog::tools;
use ruos_mcp::json::{Json, JsonNumber};
use ruos_mcp::tools::{
    call_tool, capture, capture_command, finish_shell, screenshot_result, text, text_err, Finish,
    ToolStep,
};
use serde_json::Value;

fn to_value(j: &Json) -> Value {
    match j {
        Json::Null => Value::Null,
        Json::Bool(b) => Value::Bool(*b),
        Json::Number(JsonNumber::PosInt(u)) => Value::from(*u),
        Json::Number(JsonNumber::NegInt(i)) => Value::from(*i),
        Json::Number(JsonNumber::Float(bits)) => Value::from(f64::from_bits(*bits)),
        Json::Str(s) => Value::String(s.clone()),
        Json::Array(xs) => Value::Array(xs.iter().map(to_value).collect()),
        Json::Object(ms) => {
            let mut m = serde_json::Map::new();
            for (k, v) in ms {
                m.insert(k.clone(), to_value(v));
            }
            Value::Object(m)
        }
    }
}

fn json_text(j: &Json) -> String {
    to_value(j).to_string()
}

fn args(members: Vec<(&str, Json)>) -> Json {
    Json::Object(members.into_iter().map(|(k, v)| (k.to_string(), v)).collect())
}

fn num(i: i64) -> Json {
    if i < 0 {
        Json::Number(JsonNumber::NegInt(i))
    } else {
        Json::Number(JsonNumber::PosInt(i as u64))
    }
}

fn string(s: &str) -> Json {
    Json::Str(s.to_string())
}

fn shell_of(step: ToolStep) -> (String, Finish) {
    match step {
        ToolStep::Shell(cmd, f) => (cmd, f),
        other => panic!("expected a shell step, got {:?}", other),
    }
}

fn done_of(step: ToolStep) -> String {
    match step {
        ToolStep::Done(j) => json_text(&j),
        other => panic!("expected a result, got {:?}", other),
    }
}

#[test]
fn text_results_have_one_text_item() {
    assert_eq!(json_text(&text("typed")), r#"{"content":[{"text":"typed","type":"text"}]}"#);
    assert_eq!(
        json_text(&text_err("keys required")),
        r#"{"content":[{"text":"keys required","type":"text"}],"isError":true}"#
    );
}

#[test]
fn catalog_lists_sixteen_tools_in_order() {
    let v = to_value(&tools());
    let names: Vec<&str> = v.as_array().unwrap().iter().map(|e| e["name"].as_str().unwrap()).collect();
    assert_eq!(
        names,
        vec![
            "screenshot", "screen_size", "cursor_position", "mouse_move", "left_click", "right_click",
            "middle_click", "double_click", "left_click_drag", "type_text", "key", "scroll", "wait",
            "run_shell", "system_action", "desktop_resolution"
        ]
    );
}

#[test]
fn catalog_entries_carry_their_schemas() {
    let v = to_value(&tools());
    let drag = &v[8];
    assert_eq!(drag["description"], "Press left at (x,y), drag to (to_x,to_y), release.");
    assert_eq!(drag["inputSchema"]["type"], "object");
    assert_eq!(drag["inputSchema"]["required"].to_string(), r#"["x","y","to_x","to_y"]"#);
    assert_eq!(v[3]["inputSchema"]["properties"]["x"]["description"], "X pixel (0 = left)");
    assert_eq!(v[11]["inputSchema"]["properties"]["direction"]["enum"].to_string(), r#"["up","down","left","right"]"#);
    assert_eq!(v[15]["inputSchema"]["required"].to_string(), "[]");
    assert_eq!(v[0]["inputSchema"]["properties"].to_string(), "{}");
}

#[test]
fn every_catalog_tool_is_known_to_call_tool() {
    let v = to_value(&tools());
    for e in v.as_array().unwrap() {
        let name = e["name"].as_str().unwrap();
        if let ToolStep::Done(j) = call_tool(name, &args(vec![])) {
            assert!(!json_text(&j).contains("unknown tool"), "{name}");
        }
    }
}

#[test]
fn unknown_tool_is_an_error() {
    assert_eq!(
        done_of(call_tool("fly", &args(vec![]))),
        r#"{"content":[{"text":"unknown tool 'fly'","type":"text"}],"isError":true}"#
    );
}

#[test]
fn screenshot_asks_for_a_capture() {
    assert!(matches!(call_tool("screenshot", &args(vec![])), ToolStep::Screenshot));
    assert_eq!(
        capture_command(),
        "scrot -o -q 70 /tmp/ruos-cu-shot.png 2>/dev/null || gnome-screenshot -f /tmp/ruos-cu-shot.png 2>/dev/null || import -silent -window root /tmp/ruos-cu-shot.png 2>/dev/null"
    );
}

#[test]
fn capture_encodes_the_picture_in_base64() {
    assert_eq!(capture(Some(b"hello".to_vec())), Ok("aGVsbG8=".to_string()));
    assert_eq!(capture(Some(vec![0xff, 0x00, 0x10])), Ok("/wAQ".to_string()));
    let none = Err("screenshot failed — no scrot/gnome-screenshot/imagemagick, or no X display".to_string());
    assert_eq!(capture(Some(vec![])), none);
    assert_eq!(capture(None), none);
}

#[test]
fn screenshot_result_is_a_png_image() {
    assert_eq!(
        json_text(&screenshot_result(&Ok("aGVsbG8=".to_string()))),
        r#"{"content":[{"data":"aGVsbG8=","mimeType":"image/png","type":"image"}]}"#
    );
    assert_eq!(
        json_text(&screenshot_result(&Err("no".to_string()))),
        r#"{"content":[{"text":"no","type":"text"}],"isError":true}"#
    );
}

#[test]
fn screen_size_and_cursor_answer_trimmed_output() {
    let (cmd, f) = shell_of(call_tool("screen_size", &args(vec![])));
    assert_eq!(cmd, "xdotool getdisplaygeometry");
    assert_eq!(json_text(&finish_shell(&f, true, "1920 1080\n")), json_text(&text("1920 1080")));
    assert_eq!(json_text(&finish_shell(&f, false, "no display\n")), json_text(&text_err("no display\n")));
    let (cmd, _) = shell_of(call_tool("cursor_position", &args(vec![])));
    assert_eq!(cmd, "xdotool getmouselocation --shell | sed -n '1,2p' | cut -d= -f2 | paste -sd' '");
}

#[test]
fn mouse_move_defaults_to_origin() {
    let (cmd, f) = shell_of(call_tool("mouse_move", &args(vec![("x", num(10)), ("y", num(-20))])));
    assert_eq!(cmd, "xdotool mousemove 10 -20");
    assert_eq!(json_text(&finish_shell(&f, true, "")), json_text(&text("moved to 10 -20")));
    assert_eq!(json_text(&finish_shell(&f, false, "boom")), json_text(&text_err("boom")));
    let (cmd, _) = shell_of(call_tool("mouse_move", &args(vec![("x", string("10"))])));
    assert_eq!(cmd, "xdotool mousemove 0 0");
}

#[test]
fn clicks_move_first_only_with_both_coordinates() {
    let (cmd, f) = shell_of(call_tool("left_click", &args(vec![("x", num(5)), ("y", num(6))])));
    assert_eq!(cmd, "xdotool mousemove 5 6 && xdotool click 1");
    assert_eq!(json_text(&finish_shell(&f, true, "")), json_text(&text("left_click done")));
    let (cmd, _) = shell_of(call_tool("right_click", &args(vec![("x", num(5))])));
    assert_eq!(cmd, "xdotool click 3");
    let (cmd, _) = shell_of(call_tool("middle_click", &args(vec![])));
    assert_eq!(cmd, "xdotool click 2");
    let (cmd, f) = shell_of(call_tool("double_click", &args(vec![])));
    assert_eq!(cmd, "xdotool click --repeat 2 1");
    assert_eq!(json_text(&finish_shell(&f, true, "")), json_text(&text("double_click done")));
}

#[test]
fn drag_presses_moves_and_releases() {
    let a = args(vec![("x", num(1)), ("y", num(2)), ("to_x", num(30)), ("to_y", num(40))]);
    let (cmd, f) = shell_of(call_tool("left_click_drag", &a));
    assert_eq!(cmd, "xdotool mousemove 1 2 mousedown 1 mousemove 30 40 mouseup 1");
    assert_eq!(json_text(&finish_shell(&f, true, "")), json_text(&text("dragged 1,2 -> 30,40")));
}

#[test]
fn type_text_quotes_the_text() {
    let (cmd, f) = shell_of(call_tool("type_text", &args(vec![("text", string("don't stop"))])));
    assert_eq!(cmd, "xdotool type --clearmodifiers -- 'don'\\''t stop'");
    assert_eq!(json_text(&finish_shell(&f, true, "")), json_text(&text("typed")));
    let (cmd, _) = shell_of(call_tool("type_text", &args(vec![])));
    assert_eq!(cmd, "xdotool type --clearmodifiers -- ''");
}

#[test]
fn key_requires_keys() {
    assert_eq!(done_of(call_tool("key", &args(vec![]))), json_text(&text_err("keys required")));
    let (cmd, f) = shell_of(call_tool("key", &args(vec![("keys", string("ctrl+c"))])));
    assert_eq!(cmd, "xdotool key --clearmodifiers -- 'ctrl+c'");
    assert_eq!(json_text(&finish_shell(&f, true, "")), json_text(&text("pressed ctrl+c")));
}

#[test]
fn scroll_clamps_the_amount_and_picks_the_button() {
    let (cmd, f) = shell_of(call_tool("scroll", &args(vec![("direction", string("up"))])));
    assert_eq!(cmd, "xdotool click --repeat 3 4");
    assert_eq!(json_text(&finish_shell(&f, true, "")), json_text(&text("scrolled up x3")));
    let (cmd, _) = shell_of(call_tool("scroll", &args(vec![("direction", string("left")), ("amount", num(500))])));
    assert_eq!(cmd, "xdotool click --repeat 100 6");
    let (cmd, _) = shell_of(call_tool("scroll", &args(vec![("direction", string("right")), ("amount", num(-4))])));
    assert_eq!(cmd, "xdotool click --repeat 1 7");
    let (cmd, f) = shell_of(call_tool("scroll", &args(vec![("direction", string("sideways"))])));
    assert_eq!(cmd, "xdotool click --repeat 3 5");
    assert_eq!(json_text(&finish_shell(&f, true, "")), json_text(&text("scrolled sideways x3")));
}

#[test]
fn wait_is_clamped_to_ten_seconds() {
    match call_tool("wait", &args(vec![("ms", num(25000))])) {
        ToolStep::Sleep(ms, j) => {
            assert_eq!(ms, 10000);
            assert_eq!(json_text(&j), json_text(&text("waited 10000ms")));
        }
        other => panic!("{:?}", other),
    }
    match call_tool("wait", &args(vec![("ms", num(-3))])) {
        ToolStep::Sleep(ms, j) => {
            assert_eq!(ms, 0);
            assert_eq!(json_text(&j), json_text(&text("waited 0ms")));
        }
        other => panic!("{:?}", other),
    }
}

#[test]
fn run_shell_answers_the_output_or_a_placeholder() {
    assert_eq!(done_of(call_tool("run_shell", &args(vec![]))), json_text(&text_err("command required")));
    let (cmd, f) = shell_of(call_tool("run_shell", &args(vec![("command", string("uname -a"))])));
    assert_eq!(cmd, "uname -a");
    assert_eq!(json_text(&finish_shell(&f, false, "Linux\n")), json_text(&text("Linux\n")));
    assert_eq!(json_text(&finish_shell(&f, true, " \n")), json_text(&text("(no output)")));
}

#[test]
fn system_action_posts_the_action_to_the_executor() {
    assert_eq!(done_of(call_tool("system_action", &args(vec![]))), json_text(&text_err("action required")));
    let (cmd, f) = shell_of(call_tool("system_action", &args(vec![("action", string("install")), ("args", string("codex"))])));
    assert_eq!(
        cmd,
        "curl -s --max-time 300 -H 'Content-Type: application/json' -d '{\"action\":\"install\",\"args\":\"codex\"}' http://127.0.0.1:17870/api/command"
    );
    assert_eq!(
        json_text(&finish_shell(&f, true, "")),
        json_text(&text("no response from the desktop executor (is ruos-welcome running?)"))
    );
    assert_eq!(json_text(&finish_shell(&f, true, "{\"ok\":true}")), json_text(&text("{\"ok\":true}")));
}

#[test]
fn system_action_escapes_json_and_shell_quotes() {
    let (cmd, _) = shell_of(call_tool("system_action", &args(vec![("action", string("say \"hi\"\n")), ("args", string("it's\\"))])));
    assert_eq!(
        cmd,
        "curl -s --max-time 300 -H 'Content-Type: application/json' -d '{\"action\":\"say \\\"hi\\\"\\n\",\"args\":\"it'\\''s\\\\\"}' http://127.0.0.1:17870/api/command"
    );
    let (cmd, _) = shell_of(call_tool("system_action", &args(vec![("action", string("a\u{1}b"))])));
    assert!(cmd.contains("{\"action\":\"a\\u0001b\",\"args\":\"\"}"));
}

#[test]
fn desktop_resolution_posts_the_given_fields_in_key_order() {
    assert_eq!(
        done_of(call_tool("desktop_resolution", &args(vec![]))),
        json_text(&text_err("give width+height or a preset (720p|1080p|qxga|1440p)"))
    );
    let (cmd, _) = shell_of(call_tool("desktop_resolution", &args(vec![("width", num(1920)), ("height", num(1080))])));
    assert_eq!(
        cmd,
        "curl -s --max-time 60 -H 'Content-Type: application/json' -d '{\"height\":1080,\"width\":1920}' http://127.0.0.1:17870/api/desktop/resolution"
    );
    let a = args(vec![("preset", string("1080p")), ("refresh", num(-60)), ("width", string("wide"))]);
    let (cmd, _) = shell_of(call_tool("desktop_resolution", &a));
    assert!(cmd.contains("-d '{\"preset\":\"1080p\",\"refresh\":-60}' "));
}

#[test]
fn capture_pads_short_groups() {
    assert_eq!(capture(Some(vec![0])), Ok("AA==".to_string()));
    assert_eq!(capture(Some(vec![0xfb, 0xef])), Ok("++8=".to_string()));
    assert_eq!(capture(Some(b"Man".to_vec())), Ok("TWFu".to_string()));
}
