//! What each pointer and wheel tool asks of xdotool, and how long `wait`
//! sleeps, stated over the arguments of the call.

use vstd::prelude::*;
use crate::json::{int_member, object_text, str_member, JsonSpec, ScalarSpec};
use crate::shell::shell_quoted;
use crate::laws::lemma_tool_plans;
use crate::text::decimal;
use crate::tools::{
    int_field, resolution_members, text_result, tool_plan, FinishSpec, StepSpec, NO_EXECUTOR,
    RESOLUTION,
};

verus! {

/// The integer given under `key`, or 0 when none is.
pub open spec fn int_or_zero(args: JsonSpec, key: Seq<char>) -> int {
    match int_member(args, key) {
        Some(v) => v as int,
        None => 0,
    }
}

/// Law: `wait` sleeps exactly the `ms` it is given when that lies within
/// 0..=10000; 10000 ms for more, none for less or when `ms` is missing; and
/// says how long it waited.
pub proof fn lemma_wait_sleeps_what_is_asked(args: JsonSpec)
    ensures
        tool_plan("wait"@, args) matches StepSpec::Sleep(ms, result) && {
            &&& match int_member(args, "ms"@) {
                Some(m) => if m < 0 {
                    ms == 0
                } else if m > 10000 {
                    ms == 10000
                } else {
                    ms == m
                },
                None => ms == 0,
            }
            &&& result == text_result("waited "@ + decimal(ms as int) + "ms"@, false)
        },
{
    lemma_tool_plans("wait"@, args);
}

/// Law: `mouse_move` moves the pointer to the given x and y (0 for one not
/// given) and says where it moved.
pub proof fn lemma_mouse_move_goes_to_the_point(args: JsonSpec)
    ensures
        ({
            let x = decimal(int_or_zero(args, "x"@));
            let y = decimal(int_or_zero(args, "y"@));
            tool_plan("mouse_move"@, args) == StepSpec::Shell(
                "xdotool mousemove "@ + x + " "@ + y,
                FinishSpec::Message("moved to "@ + x + " "@ + y),
            )
        }),
{
    lemma_tool_plans("mouse_move"@, args);
}

/// Law: `left_click_drag` presses the left button at (x, y), moves to
/// (to_x, to_y) and releases it there (0 for a coordinate not given).
pub proof fn lemma_drag_goes_from_start_to_end(args: JsonSpec)
    ensures
        ({
            let x = decimal(int_or_zero(args, "x"@));
            let y = decimal(int_or_zero(args, "y"@));
            let tx = decimal(int_or_zero(args, "to_x"@));
            let ty = decimal(int_or_zero(args, "to_y"@));
            tool_plan("left_click_drag"@, args) == StepSpec::Shell(
                "xdotool mousemove "@ + x + " "@ + y + " mousedown 1 mousemove "@ + tx + " "@ + ty
                    + " mouseup 1"@,
                FinishSpec::Message("dragged "@ + x + ","@ + y + " -> "@ + tx + ","@ + ty),
            )
        }),
{
    lemma_tool_plans("left_click_drag"@, args);
}

/// Law: `scroll` clicks the wheel button of its direction (up 4, down 5,
/// left 6, right 7, and down for any other direction) `amount` times: 3 when
/// not given, and brought into 1..=100.
pub proof fn lemma_scroll_clicks_the_direction_button(args: JsonSpec)
    ensures
        tool_plan("scroll"@, args) matches StepSpec::Shell(cmd, _) && {
            let d = str_member(args, "direction"@);
            let times: int = match int_member(args, "amount"@) {
                Some(a) => if a < 1 {
                    1
                } else if a > 100 {
                    100
                } else {
                    a as int
                },
                None => 3,
            };
            let prefix = "xdotool click --repeat "@ + decimal(times) + " "@;
            &&& d == "up"@ ==> cmd == prefix + "4"@
            &&& d == "down"@ ==> cmd == prefix + "5"@
            &&& d == "left"@ ==> cmd == prefix + "6"@
            &&& d == "right"@ ==> cmd == prefix + "7"@
            &&& (d != "up"@ && d != "down"@ && d != "left"@ && d != "right"@) ==> cmd == prefix
                + "5"@
        },
{
    lemma_tool_plans("scroll"@, args);
    reveal_strlit("up");
    reveal_strlit("down");
    reveal_strlit("left");
    reveal_strlit("right");
    reveal_strlit("4");
    reveal_strlit("5");
    reveal_strlit("6");
    reveal_strlit("7");
    assert("down"@[0] != "left"@[0]);
    assert(decimal(4) =~= "4"@);
    assert(decimal(5) =~= "5"@);
    assert(decimal(6) =~= "6"@);
    assert(decimal(7) =~= "7"@);
}

/// The xdotool click that a click tool makes: the left button once, the right
/// button (3), the middle button (2), or the left button twice.
pub open spec fn click_of(name: Seq<char>) -> Seq<char> {
    if name == "right_click"@ {
        "xdotool click 3"@
    } else if name == "middle_click"@ {
        "xdotool click 2"@
    } else if name == "double_click"@ {
        "xdotool click --repeat 2 1"@
    } else {
        "xdotool click 1"@
    }
}

/// Law: every click tool first moves the pointer to (x, y) when both are
/// given as integers, and then clicks its button; without both it clicks
/// where the pointer is.
pub proof fn lemma_clicks_move_first(name: Seq<char>, args: JsonSpec)
    requires
        name == "left_click"@ || name == "right_click"@ || name == "middle_click"@ || name
            == "double_click"@,
    ensures
        tool_plan(name, args) matches StepSpec::Shell(cmd, FinishSpec::Message(m)) && m == name
            + " done"@ && match (int_member(args, "x"@), int_member(args, "y"@)) {
            (Some(x), Some(y)) => cmd == "xdotool mousemove "@ + decimal(x as int) + " "@ + decimal(
                y as int,
            ) + " && "@ + click_of(name),
            _ => cmd == click_of(name),
        },
{
    lemma_tool_plans(name, args);
    reveal_strlit("left_click");
    reveal_strlit("right_click");
    reveal_strlit("middle_click");
    reveal_strlit("double_click");
    reveal_strlit("xdotool click ");
    reveal_strlit("xdotool click 1");
    reveal_strlit("xdotool click 2");
    reveal_strlit("xdotool click 3");
    reveal_strlit("");
    assert("middle_click"@[0] != "double_click"@[0]);
    assert(decimal(1) =~= seq!['1']);
    assert(decimal(2) =~= seq!['2']);
    assert(decimal(3) =~= seq!['3']);
    assert("xdotool click "@ + decimal(1) =~= "xdotool click 1"@);
    assert("xdotool click "@ + decimal(2) =~= "xdotool click 2"@);
    assert("xdotool click "@ + decimal(3) =~= "xdotool click 3"@);
    match (int_member(args, "x"@), int_member(args, "y"@)) {
        (Some(x), Some(y)) => {
            let p = "xdotool mousemove "@ + decimal(x as int) + " "@ + decimal(y as int) + " && "@;
            assert(p + click_of(name) == p + click_of(name));
        },
        _ => {
            assert(Seq::<char>::empty() + click_of(name) =~= click_of(name));
        },
    }
}


/// Whether `m` is a member of the resolution request that the arguments ask
/// for: a given integer height, refresh or width, or a non-empty preset.
pub open spec fn asked_member(args: JsonSpec, m: (Seq<char>, ScalarSpec)) -> bool {
    ||| int_member(args, "height"@) matches Some(v) && m == ("height"@, ScalarSpec::Int(v))
    ||| str_member(args, "preset"@).len() > 0 && m == ("preset"@, ScalarSpec::Text(
        str_member(args, "preset"@),
    ))
    ||| int_member(args, "refresh"@) matches Some(v) && m == ("refresh"@, ScalarSpec::Int(v))
    ||| int_member(args, "width"@) matches Some(v) && m == ("width"@, ScalarSpec::Int(v))
}

/// The command that posts the JSON object with the members `ms` to the
/// resolution endpoint.
pub open spec fn resolution_command(ms: Seq<(Seq<char>, ScalarSpec)>) -> Seq<char> {
    "curl -s --max-time "@ + "60"@ + " -H 'Content-Type: application/json' -d "@ + shell_quoted(
        object_text(ms),
    ) + " "@ + RESOLUTION@
}

/// Each member asked for is among `ms`, and each of `ms` was asked for.
pub open spec fn holds_asked_members(args: JsonSpec, ms: Seq<(Seq<char>, ScalarSpec)>) -> bool {
    let h = int_member(args, "height"@);
    let p = str_member(args, "preset"@);
    let r = int_member(args, "refresh"@);
    let w = int_member(args, "width"@);
    &&& (h matches Some(v) ==> ms.contains(("height"@, ScalarSpec::Int(v))))
    &&& (p.len() > 0 ==> ms.contains(("preset"@, ScalarSpec::Text(p))))
    &&& (r matches Some(v) ==> ms.contains(("refresh"@, ScalarSpec::Int(v))))
    &&& (w matches Some(v) ==> ms.contains(("width"@, ScalarSpec::Int(v))))
    &&& forall|i: int| 0 <= i < ms.len() ==> asked_member(args, #[trigger] ms[i])
}

/// Law: `desktop_resolution` posts to the resolution endpoint a JSON object
/// that holds every field given (an integer height, refresh or width, a
/// non-empty preset), each with its given value whatever else is given, and
/// nothing else; with nothing given it asks for something instead.
pub proof fn lemma_resolution_posts_every_given_field(args: JsonSpec)
    ensures
        ({
            let h = int_member(args, "height"@);
            let p = str_member(args, "preset"@);
            let r = int_member(args, "refresh"@);
            let w = int_member(args, "width"@);
            if h is None && p.len() == 0 && r is None && w is None {
                tool_plan("desktop_resolution"@, args) == StepSpec::Done(
                    text_result("give width+height or a preset (720p|1080p|qxga|1440p)"@, true),
                )
            } else {
                exists|ms: Seq<(Seq<char>, ScalarSpec)>|
                    #[trigger] holds_asked_members(args, ms) && tool_plan("desktop_resolution"@, args)
                        == StepSpec::Shell(resolution_command(ms), FinishSpec::Output(NO_EXECUTOR@))
            }
        }),
{
    lemma_tool_plans("desktop_resolution"@, args);
    let p = str_member(args, "preset"@);
    let a = int_field(args, "height"@);
    let b: Seq<(Seq<char>, ScalarSpec)> = if p.len() > 0 {
        seq![("preset"@, ScalarSpec::Text(p))]
    } else {
        Seq::empty()
    };
    let c = int_field(args, "refresh"@);
    let d = int_field(args, "width"@);
    let ms = resolution_members(args);
    assert(ms == a + b + c + d);
    if let Some(v) = int_member(args, "height"@) {
        assert(ms[0] == ("height"@, ScalarSpec::Int(v)));
        assert(ms.contains(("height"@, ScalarSpec::Int(v))));
    }
    if p.len() > 0 {
        assert(ms[a.len() as int] == ("preset"@, ScalarSpec::Text(p)));
        assert(ms.contains(("preset"@, ScalarSpec::Text(p))));
    }
    if let Some(v) = int_member(args, "refresh"@) {
        assert(ms[(a.len() + b.len()) as int] == ("refresh"@, ScalarSpec::Int(v)));
        assert(ms.contains(("refresh"@, ScalarSpec::Int(v))));
    }
    if let Some(v) = int_member(args, "width"@) {
        assert(ms[(a.len() + b.len() + c.len()) as int] == ("width"@, ScalarSpec::Int(v)));
        assert(ms.contains(("width"@, ScalarSpec::Int(v))));
    }
    assert forall|i: int| 0 <= i < ms.len() implies asked_member(args, #[trigger] ms[i]) by {
        if i < a.len() {
            assert(ms[i] == a[i]);
        } else if i < a.len() + b.len() {
            assert(ms[i] == b[i - a.len()]);
        } else if i < a.len() + b.len() + c.len() {
            assert(ms[i] == c[i - a.len() - b.len()]);
        } else {
            assert(ms[i] == d[i - a.len() - b.len() - c.len()]);
        }
    }
    let h = int_member(args, "height"@);
    let r = int_member(args, "refresh"@);
    let w = int_member(args, "width"@);
    if !(h is None && p.len() == 0 && r is None && w is None) {
        assert(ms.len() > 0);
        assert(holds_asked_members(args, ms));
        assert(tool_plan("desktop_resolution"@, args) == StepSpec::Shell(
            resolution_command(ms),
            FinishSpec::Output(NO_EXECUTOR@),
        ));
    } else {
        assert(ms.len() == 0);
        assert(tool_plan("desktop_resolution"@, args) == StepSpec::Done(
            text_result("give width+height or a preset (720p|1080p|qxga|1440p)"@, true),
        ));
    }
}

} // verus!
