use desktop_mcp::json::JsonValue;
use desktop_mcp::keymap::{KeyCode, char_to_key, get_modifier_key, parse_key};
use desktop_mcp::plan::{InputEvent, MouseButton, PlanStep, plan_key_tap, plan_mouse_click,
    plan_mouse_drag, plan_mouse_move, plan_type_text};
use desktop_mcp::render::render_compact;
use desktop_mcp::tools::{ToolStep, execute_tool};

fn obj(fields: Vec<(&str, JsonValue)>) -> JsonValue {
    JsonValue::Obj(fields.into_iter().map(|(k, v)| (String::from(k), v)).collect())
}

fn press_release_count(plan: &[PlanStep]) -> usize {
    plan.iter()
        .filter(|s| {
            matches!(
                s,
                PlanStep::Emit(InputEvent::ButtonPress(_))
                    | PlanStep::Emit(InputEvent::ButtonRelease(_))
            )
        })
        .count()
}

fn move_count(plan: &[PlanStep]) -> usize {
    plan.iter()
        .filter(|s| {
            matches!(
                s,
                PlanStep::Emit(InputEvent::MouseMove { .. })
                    | PlanStep::Emit(InputEvent::DragMove { .. })
            )
        })
        .count()
}

#[test]
fn mouse_move_is_one_event() {
    let plan = plan_mouse_move(10, -5);
    assert_eq!(plan, vec![PlanStep::Emit(InputEvent::MouseMove { x: 10, y: -5 })]);
}

#[test]
fn click_without_coordinates_single() {
    let plan = plan_mouse_click(None, None, MouseButton::Left, false);
    assert_eq!(press_release_count(&plan), 2);
    assert_eq!(move_count(&plan), 0);
    assert_eq!(
        plan,
        vec![
            PlanStep::Emit(InputEvent::ButtonPress(MouseButton::Left)),
            PlanStep::Pause(10),
            PlanStep::Emit(InputEvent::ButtonRelease(MouseButton::Left)),
        ]
    );
}

#[test]
fn click_without_coordinates_double() {
    let plan = plan_mouse_click(None, None, MouseButton::Right, true);
    assert_eq!(press_release_count(&plan), 4);
    assert_eq!(move_count(&plan), 0);
}

#[test]
fn click_with_coordinates_moves_first() {
    let plan = plan_mouse_click(Some(7), Some(8), MouseButton::Left, false);
    assert_eq!(plan[0], PlanStep::Emit(InputEvent::MouseMove { x: 7, y: 8 }));
    assert_eq!(plan[1], PlanStep::Pause(10));
    assert_eq!(move_count(&plan), 1);
}

#[test]
fn click_with_one_coordinate_does_not_move() {
    let plan = plan_mouse_click(Some(7), None, MouseButton::Left, false);
    assert_eq!(move_count(&plan), 0);
}

#[test]
fn drag_emits_twenty_monotonic_steps() {
    let plan = plan_mouse_drag(0, 0, 100, 0, MouseButton::Left, 200);
    let steps: Vec<(i64, i64)> = plan
        .iter()
        .filter_map(|s| match s {
            PlanStep::Emit(InputEvent::DragMove { x, y, .. }) => Some((*x, *y)),
            _ => None,
        })
        .collect();
    assert_eq!(steps.len(), 20);
    for (i, (x, y)) in steps.iter().enumerate() {
        assert_eq!(*x, 5 * (i as i64 + 1));
        assert_eq!(*y, 0);
    }
    assert_eq!(steps[0], (5, 0));
    assert_eq!(steps[19], (100, 0));
    // inter-step delay is duration / 20
    assert!(plan.contains(&PlanStep::Pause(10)));
    // the sequence starts by positioning and pressing, and ends releasing
    assert_eq!(plan[0], PlanStep::Emit(InputEvent::MouseMove { x: 0, y: 0 }));
    assert_eq!(plan[2], PlanStep::Emit(InputEvent::ButtonPress(MouseButton::Left)));
    assert_eq!(
        plan[plan.len() - 1],
        PlanStep::Emit(InputEvent::ButtonRelease(MouseButton::Left))
    );
}

#[test]
fn drag_descending_coordinates_stay_in_segment() {
    let plan = plan_mouse_drag(100, 50, 0, -50, MouseButton::Left, 400);
    let steps: Vec<(i64, i64)> = plan
        .iter()
        .filter_map(|s| match s {
            PlanStep::Emit(InputEvent::DragMove { x, y, .. }) => Some((*x, *y)),
            _ => None,
        })
        .collect();
    assert_eq!(steps.len(), 20);
    for w in steps.windows(2) {
        assert!(w[1].0 <= w[0].0);
        assert!(w[1].1 <= w[0].1);
    }
    assert_eq!(steps[19], (0, -50));
}

#[test]
fn drag_duration_rounds_down() {
    let plan = plan_mouse_drag(0, 0, 20, 0, MouseButton::Left, 90);
    // 90 / 20 = 4 with integer division
    let pauses: Vec<u64> = plan
        .iter()
        .skip(4)
        .filter_map(|s| match s {
            PlanStep::Pause(ms) => Some(*ms),
            _ => None,
        })
        .collect();
    assert_eq!(pauses, vec![4u64; 20]);
}

#[test]
fn key_tap_orders_modifiers() {
    let mods = vec![String::from("control"), String::from("shift")];
    let plan = plan_key_tap("a", &mods).expect("known key");
    assert_eq!(
        plan,
        vec![
            PlanStep::Emit(InputEvent::KeyPress(KeyCode::ControlLeft)),
            PlanStep::Emit(InputEvent::KeyPress(KeyCode::ShiftLeft)),
            PlanStep::Pause(10),
            PlanStep::Emit(InputEvent::KeyPress(KeyCode::A)),
            PlanStep::Pause(10),
            PlanStep::Emit(InputEvent::KeyRelease(KeyCode::A)),
            PlanStep::Pause(10),
            PlanStep::Emit(InputEvent::KeyRelease(KeyCode::ShiftLeft)),
            PlanStep::Emit(InputEvent::KeyRelease(KeyCode::ControlLeft)),
        ]
    );
}

#[test]
fn key_tap_ignores_unknown_modifiers() {
    let mods = vec![String::from("hyper"), String::from("shift")];
    let plan = plan_key_tap("tab", &mods).expect("known key");
    let presses: Vec<&PlanStep> = plan
        .iter()
        .filter(|s| matches!(s, PlanStep::Emit(InputEvent::KeyPress(_))))
        .collect();
    assert_eq!(presses.len(), 2); // shift + tab, hyper dropped
}

#[test]
fn key_tap_unknown_key_fails() {
    let e = plan_key_tap("frob", &vec![]).unwrap_err();
    assert_eq!(e.as_str(), "Unknown key: frob");
}

#[test]
fn type_text_shift_brackets_each_character() {
    let plan = plan_type_text("Hi!", 20);
    assert_eq!(
        plan,
        vec![
            // 'H': shifted
            PlanStep::Emit(InputEvent::KeyPress(KeyCode::ShiftLeft)),
            PlanStep::Pause(5),
            PlanStep::Emit(InputEvent::KeyPress(KeyCode::H)),
            PlanStep::Pause(5),
            PlanStep::Emit(InputEvent::KeyRelease(KeyCode::H)),
            PlanStep::Pause(5),
            PlanStep::Emit(InputEvent::KeyRelease(KeyCode::ShiftLeft)),
            PlanStep::Pause(20),
            // 'i': plain
            PlanStep::Emit(InputEvent::KeyPress(KeyCode::I)),
            PlanStep::Pause(5),
            PlanStep::Emit(InputEvent::KeyRelease(KeyCode::I)),
            PlanStep::Pause(20),
            // '!': shift + 1
            PlanStep::Emit(InputEvent::KeyPress(KeyCode::ShiftLeft)),
            PlanStep::Pause(5),
            PlanStep::Emit(InputEvent::KeyPress(KeyCode::N1)),
            PlanStep::Pause(5),
            PlanStep::Emit(InputEvent::KeyRelease(KeyCode::N1)),
            PlanStep::Pause(5),
            PlanStep::Emit(InputEvent::KeyRelease(KeyCode::ShiftLeft)),
            PlanStep::Pause(20),
        ]
    );
}

#[test]
fn type_text_skips_unmapped_characters() {
    let plan = plan_type_text("é", 20);
    assert!(plan.is_empty());
    let plan = plan_type_text("aéb", 15);
    // only 'a' and 'b' contribute, each 3 events + 1 delay
    assert_eq!(plan.len(), 8);
}

#[test]
fn parse_key_is_case_insensitive() {
    assert_eq!(parse_key("ENTER"), Some(KeyCode::Return));
    assert_eq!(parse_key("Escape"), Some(KeyCode::Escape));
    assert_eq!(parse_key("f11"), Some(KeyCode::F11));
    assert_eq!(parse_key("-"), Some(KeyCode::Minus));
    assert_eq!(parse_key("minus"), Some(KeyCode::Minus));
    assert_eq!(parse_key("cmd"), Some(KeyCode::MetaLeft));
    assert_eq!(parse_key("nosuchkey"), None);
}

#[test]
fn modifier_aliases_resolve() {
    assert_eq!(get_modifier_key("ctrl"), Some(KeyCode::ControlLeft));
    assert_eq!(get_modifier_key("Option"), Some(KeyCode::Alt));
    assert_eq!(get_modifier_key("WIN"), Some(KeyCode::MetaLeft));
    assert_eq!(get_modifier_key("fn"), None);
}

#[test]
fn char_resolution_covers_shifted_set() {
    assert_eq!(char_to_key('a'), (Some(KeyCode::A), false));
    assert_eq!(char_to_key('A'), (Some(KeyCode::A), true));
    assert_eq!(char_to_key('7'), (Some(KeyCode::N7), false));
    assert_eq!(char_to_key('&'), (Some(KeyCode::N7), true));
    assert_eq!(char_to_key('\n'), (Some(KeyCode::Return), false));
    assert_eq!(char_to_key('\t'), (Some(KeyCode::Tab), false));
    assert_eq!(char_to_key('~'), (Some(KeyCode::BackQuote), true));
    assert_eq!(char_to_key('"'), (Some(KeyCode::Quote), true));
    assert_eq!(char_to_key('é'), (None, false));
}

#[test]
fn type_text_result_reports_byte_length() {
    let args = obj(vec![("text", JsonValue::Text(String::from("Hi!")))]);
    match execute_tool("type_text", &args) {
        ToolStep::Inject { result, .. } => {
            assert_eq!(render_compact(&result), "{\"success\":true,\"length\":3}");
        },
        _ => panic!("expected injection"),
    }
}

#[test]
fn click_result_echoes_button_string() {
    let args = obj(vec![("button", JsonValue::Text(String::from("middle")))]);
    match execute_tool("mouse_click", &args) {
        ToolStep::Inject { plan, result } => {
            assert_eq!(
                render_compact(&result),
                "{\"success\":true,\"button\":\"middle\",\"double_click\":false}"
            );
            assert_eq!(
                plan[0],
                PlanStep::Emit(InputEvent::ButtonPress(MouseButton::Middle))
            );
        },
        _ => panic!("expected injection"),
    }
}

#[test]
fn drag_missing_argument_names_it() {
    let args = obj(vec![
        ("from_x", JsonValue::Int(0)),
        ("from_y", JsonValue::Int(0)),
        ("to_x", JsonValue::Int(5)),
    ]);
    match execute_tool("mouse_drag", &args) {
        ToolStep::Reject(m) => assert_eq!(m.as_str(), "Missing to_y"),
        _ => panic!("expected rejection"),
    }
}

#[test]
fn key_tap_missing_key_names_it() {
    match execute_tool("key_tap", &obj(vec![])) {
        ToolStep::Reject(m) => assert_eq!(m.as_str(), "Missing key"),
        _ => panic!("expected rejection"),
    }
}

#[test]
fn optional_field_of_wrong_type_falls_back() {
    // a non-boolean double_click counts as absent, never as an error
    let args = obj(vec![
        ("double_click", JsonValue::Text(String::from("yes"))),
        ("button", JsonValue::Int(3)),
    ]);
    match execute_tool("mouse_click", &args) {
        ToolStep::Inject { result, .. } => {
            assert_eq!(
                render_compact(&result),
                "{\"success\":true,\"button\":\"left\",\"double_click\":false}"
            );
        },
        _ => panic!("expected injection"),
    }
}
