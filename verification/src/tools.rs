//! The tool registry and executor: maps a tool name plus an argument
//! bag to one device action, each tool extracting and defaulting its
//! own fields. Required fields that are absent or differently typed
//! fail naming the field; optional fields fall back to their declared
//! default in the same case.

use vstd::prelude::*;
use vstd::string::StringExecFns;
use vstd::utf8::encode_utf8;
use crate::json::{Jv, JsonValue, JsonArr, JsonObj, arr_field, bool_field, int_field, jv_of,
    jv_of_seq, str_field, u64_field};
use crate::plan::{MouseButton, PlanStep, click_plan, drag_plan, key_tap_plan, move_plan,
    plan_key_tap, plan_mouse_click, plan_mouse_drag, plan_mouse_move, plan_type_text,
    type_text_steps};
use crate::keymap::key_of_name;
use crate::strutil::str_eq;

verus! {

broadcast use vstd::std_specs::vec::group_vec_axioms, vstd::seq::group_seq_axioms;

/// A capture region in screen-local coordinates.
#[derive(Clone, Copy, PartialEq, Eq, Structural, Debug)]
pub struct RegionArgs {
    pub x: i32,
    pub y: i32,
    pub width: u32,
    pub height: u32,
}

/// The arguments of a screen capture, extracted and defaulted.
#[derive(Clone, Copy, PartialEq, Eq, Structural, Debug)]
pub struct CaptureArgs {
    pub screen_index: u64,
    pub region: Option<RegionArgs>,
    pub max_width: u32,
    pub max_height: u32,
    pub quality: u8,
}

/// What the executor decides for one call: run an input-event plan and
/// answer with a fixed result, perform a capture, query the screen
/// list, or fail at tool level with a message.
pub enum ToolStep {
    Inject { plan: Vec<PlanStep>, result: JsonValue },
    Capture(CaptureArgs),
    ScreenInfo,
    Reject(String),
}

/// Mathematical mirror of a `ToolStep`.
pub enum ToolAction {
    Inject(Seq<PlanStep>, Jv),
    Capture(CaptureArgs),
    ScreenInfo,
    Reject(Seq<char>),
}

impl DeepView for ToolStep {
    type V = ToolAction;

    open spec fn deep_view(&self) -> ToolAction {
        match self {
            ToolStep::Inject { plan, result } => ToolAction::Inject(plan@, jv_of(*result)),
            ToolStep::Capture(a) => ToolAction::Capture(*a),
            ToolStep::ScreenInfo => ToolAction::ScreenInfo,
            ToolStep::Reject(m) => ToolAction::Reject(m@),
        }
    }
}

/// The seven tool names, in the order the registry lists them.
pub open spec fn tool_names() -> Seq<Seq<char>> {
    seq![
        "screen_capture"@,
        "mouse_move"@,
        "mouse_click"@,
        "mouse_drag"@,
        "key_tap"@,
        "type_text"@,
        "get_screen_info"@,
    ]
}

/// Whether the executor dispatches a name to a tool of its own.
pub open spec fn dispatched(name: Seq<char>) -> bool {
    ||| name == "screen_capture"@
    ||| name == "mouse_move"@
    ||| name == "mouse_click"@
    ||| name == "mouse_drag"@
    ||| name == "key_tap"@
    ||| name == "type_text"@
    ||| name == "get_screen_info"@
}

/// The set the executor dispatches on is exactly the listed name set.
///
/// Together with `lemma_descriptor_names`, this ties the advertised
/// tool list to the dispatch table: no orphaned schema or dispatch
/// entry.
pub proof fn lemma_dispatch_matches_names(name: Seq<char>)
    ensures
        dispatched(name) <==> tool_names().contains(name),
{
    if dispatched(name) {
        if name == "screen_capture"@ {
            assert(tool_names()[0] == name);
        } else if name == "mouse_move"@ {
            assert(tool_names()[1] == name);
        } else if name == "mouse_click"@ {
            assert(tool_names()[2] == name);
        } else if name == "mouse_drag"@ {
            assert(tool_names()[3] == name);
        } else if name == "key_tap"@ {
            assert(tool_names()[4] == name);
        } else if name == "type_text"@ {
            assert(tool_names()[5] == name);
        } else {
            assert(tool_names()[6] == name);
        }
    }
}

/// The region argument of a capture: all four fields must be present
/// and well typed, else the region is dropped as a whole.
pub open spec fn region_of(args: Jv) -> Option<RegionArgs> {
    match crate::json::jv_get(args, "region"@) {
        Some(r) => match (int_field(r, "x"@), int_field(r, "y"@), u64_field(r, "width"@),
            u64_field(r, "height"@)) {
            (Some(x), Some(y), Some(w), Some(h)) => Some(
                RegionArgs {
                    x: x as i32,
                    y: y as i32,
                    width: w as u32,
                    height: h as u32,
                },
            ),
            _ => None,
        },
        None => None,
    }
}

/// The capture arguments with their declared defaults; oversized
/// numbers narrow as the machine cast does.
pub open spec fn capture_args_of(args: Jv) -> CaptureArgs {
    CaptureArgs {
        screen_index: match u64_field(args, "screen_index"@) {
            Some(i) => i as u64,
            None => 0,
        },
        region: region_of(args),
        max_width: match u64_field(args, "max_width"@) {
            Some(i) => i as u32,
            None => 1280,
        },
        max_height: match u64_field(args, "max_height"@) {
            Some(i) => i as u32,
            None => 720,
        },
        quality: match u64_field(args, "quality"@) {
            Some(i) => i as u8,
            None => 80,
        },
    }
}

/// The button a name selects; anything but `right` and `middle` is the
/// left button.
pub open spec fn button_of(s: Seq<char>) -> MouseButton {
    if s == "right"@ {
        MouseButton::Right
    } else if s == "middle"@ {
        MouseButton::Middle
    } else {
        MouseButton::Left
    }
}

/// The button argument: the `button` string field, or `left`.
pub open spec fn button_field(args: Jv) -> Seq<char> {
    match str_field(args, "button"@) {
        Some(s) => s,
        None => "left"@,
    }
}

/// The strings among an array's items, in order; other items dropped.
pub open spec fn strings_of(items: Seq<Jv>) -> Seq<Seq<char>>
    decreases items,
{
    if items.len() == 0 {
        Seq::empty()
    } else {
        strings_of(items.drop_last()) + (match items.last() {
            Jv::Text(s) => seq![s],
            _ => Seq::empty(),
        })
    }
}

/// The modifier list of a key tap: the strings of the `modifiers`
/// array, or empty where absent or differently typed.
pub open spec fn modifiers_of(args: Jv) -> Seq<Seq<char>> {
    match arr_field(args, "modifiers"@) {
        Some(items) => strings_of(items),
        None => Seq::empty(),
    }
}

/// A byte count clamped into the signed range a result number carries.
pub open spec fn len_as_int(n: int) -> int {
    if n <= 0x7fff_ffff_ffff_ffff {
        n
    } else {
        0x7fff_ffff_ffff_ffff
    }
}

/// The result object of a successful `mouse_move`.
pub open spec fn move_result(x: int, y: int) -> Jv {
    Jv::Obj(
        seq![
            ("success"@, Jv::Bool(true)),
            ("position"@, Jv::Obj(seq![("x"@, Jv::Int(x)), ("y"@, Jv::Int(y))])),
        ],
    )
}

/// The result object of a successful `mouse_click`.
pub open spec fn click_result(button: Seq<char>, double: bool) -> Jv {
    Jv::Obj(
        seq![
            ("success"@, Jv::Bool(true)),
            ("button"@, Jv::Text(button)),
            ("double_click"@, Jv::Bool(double)),
        ],
    )
}

/// The result object of a successful `mouse_drag`.
pub open spec fn drag_result(fx: int, fy: int, tx: int, ty: int) -> Jv {
    Jv::Obj(
        seq![
            ("success"@, Jv::Bool(true)),
            ("from"@, Jv::Obj(seq![("x"@, Jv::Int(fx)), ("y"@, Jv::Int(fy))])),
            ("to"@, Jv::Obj(seq![("x"@, Jv::Int(tx)), ("y"@, Jv::Int(ty))])),
        ],
    )
}

/// The result object of a successful `key_tap`.
pub open spec fn key_tap_result(key: Seq<char>, mods: Seq<Seq<char>>) -> Jv {
    Jv::Obj(
        seq![
            ("success"@, Jv::Bool(true)),
            ("key"@, Jv::Text(key)),
            ("modifiers"@, Jv::Arr(mods.map_values(|m: Seq<char>| Jv::Text(m)))),
        ],
    )
}

/// The result object of a successful `type_text`: the byte length of
/// the typed text.
pub open spec fn type_text_result(text: Seq<char>) -> Jv {
    Jv::Obj(
        seq![
            ("success"@, Jv::Bool(true)),
            ("length"@, Jv::Int(len_as_int(encode_utf8(text).len() as usize as int))),
        ],
    )
}

/// What the executor decides for a tool name and argument bag.
pub open spec fn tool_action(name: Seq<char>, args: Jv) -> ToolAction {
    if name == "screen_capture"@ {
        ToolAction::Capture(capture_args_of(args))
    } else if name == "mouse_move"@ {
        match (int_field(args, "x"@), int_field(args, "y"@)) {
            (Some(x), Some(y)) => ToolAction::Inject(
                move_plan(x as i64, y as i64),
                move_result(x, y),
            ),
            (None, _) => ToolAction::Reject("Missing x coordinate"@),
            (Some(_), None) => ToolAction::Reject("Missing y coordinate"@),
        }
    } else if name == "mouse_click"@ {
        let b = button_field(args);
        let double = match bool_field(args, "double_click"@) {
            Some(d) => d,
            None => false,
        };
        let x = match int_field(args, "x"@) {
            Some(v) => Some(v as i64),
            None => None,
        };
        let y = match int_field(args, "y"@) {
            Some(v) => Some(v as i64),
            None => None,
        };
        ToolAction::Inject(click_plan(x, y, button_of(b), double), click_result(b, double))
    } else if name == "mouse_drag"@ {
        match (int_field(args, "from_x"@), int_field(args, "from_y"@), int_field(args, "to_x"@),
            int_field(args, "to_y"@)) {
            (None, _, _, _) => ToolAction::Reject("Missing from_x"@),
            (Some(_), None, _, _) => ToolAction::Reject("Missing from_y"@),
            (Some(_), Some(_), None, _) => ToolAction::Reject("Missing to_x"@),
            (Some(_), Some(_), Some(_), None) => ToolAction::Reject("Missing to_y"@),
            (Some(fx), Some(fy), Some(tx), Some(ty)) => {
                let b = button_field(args);
                let duration = match u64_field(args, "duration_ms"@) {
                    Some(d) => d as u64,
                    None => 500,
                };
                ToolAction::Inject(
                    drag_plan(fx as i64, fy as i64, tx as i64, ty as i64, button_of(b), duration),
                    drag_result(fx, fy, tx, ty),
                )
            },
        }
    } else if name == "key_tap"@ {
        match str_field(args, "key"@) {
            None => ToolAction::Reject("Missing key"@),
            Some(key) => {
                let mods = modifiers_of(args);
                match key_of_name(key) {
                    Some(k) => ToolAction::Inject(key_tap_plan(k, mods), key_tap_result(key, mods)),
                    None => ToolAction::Reject("Unknown key: "@ + key),
                }
            },
        }
    } else if name == "type_text"@ {
        match str_field(args, "text"@) {
            None => ToolAction::Reject("Missing text"@),
            Some(text) => {
                let delay = match u64_field(args, "delay_ms"@) {
                    Some(d) => d as u64,
                    None => 20,
                };
                ToolAction::Inject(type_text_steps(text, delay), type_text_result(text))
            },
        }
    } else if name == "get_screen_info"@ {
        ToolAction::ScreenInfo
    } else {
        ToolAction::Reject("Unknown tool: "@ + name)
    }
}

/// Extracts and defaults the arguments of a screen capture.
pub fn extract_capture_args(args: &JsonValue) -> (r: CaptureArgs)
    ensures
        r == capture_args_of(jv_of(*args)),
{
    let screen_index: u64 = match args.get_u64("screen_index") {
        Some(i) => i,
        None => 0,
    };
    let region: Option<RegionArgs> = match args.get("region") {
        Some(reg) => {
            match (reg.get_i64("x"), reg.get_i64("y"), reg.get_u64("width"), reg.get_u64("height")) {
                (Some(x), Some(y), Some(w), Some(h)) => Some(
                    RegionArgs {
                        x: #[verifier::truncate] (x as i32),
                        y: #[verifier::truncate] (y as i32),
                        width: #[verifier::truncate] (w as u32),
                        height: #[verifier::truncate] (h as u32),
                    },
                ),
                _ => None,
            }
        },
        None => None,
    };
    let max_width: u32 = match args.get_u64("max_width") {
        Some(i) => #[verifier::truncate] (i as u32),
        None => 1280,
    };
    let max_height: u32 = match args.get_u64("max_height") {
        Some(i) => #[verifier::truncate] (i as u32),
        None => 720,
    };
    let quality: u8 = match args.get_u64("quality") {
        Some(i) => #[verifier::truncate] (i as u8),
        None => 80,
    };
    CaptureArgs { screen_index, region, max_width, max_height, quality }
}

/// Reads the `button` argument, falling back to the left button's name.
fn extract_button(args: &JsonValue) -> (r: String)
    ensures
        r@ == button_field(jv_of(*args)),
{
    match args.get_str("button") {
        Some(s) => s.clone(),
        None => String::from_str("left"),
    }
}

/// The button a name selects.
pub fn parse_button(s: &str) -> (r: MouseButton)
    ensures
        r == button_of(s@),
{
    if str_eq(s, "right") {
        MouseButton::Right
    } else if str_eq(s, "middle") {
        MouseButton::Middle
    } else {
        MouseButton::Left
    }
}

/// Reads the `modifiers` argument: the strings of the array, in order.
fn extract_modifiers(args: &JsonValue) -> (r: Vec<String>)
    ensures
        r.deep_view() == modifiers_of(jv_of(*args)),
{
    let mut mods: Vec<String> = Vec::new();
    match args.get_arr("modifiers") {
        Some(items) => {
            let ghost gitems = jv_of_seq(items@);
            proof {
                crate::json::lemma_jv_of_seq_len(items@);
            }
            let n = items.len();
            let mut i: usize = 0;
            while i < n
                invariant
                    n == items@.len(),
                    gitems == jv_of_seq(items@),
                    gitems.len() == n,
                    i <= n,
                    mods.deep_view() == strings_of(gitems.take(i as int)),
                decreases n - i,
            {
                proof {
                    crate::json::lemma_jv_of_seq_index(items@, i as int);
                }
                match &items[i] {
                    JsonValue::Text(s) => {
                        mods.push(s.clone());
                    },
                    _ => {},
                }
                proof {
                    assert(gitems.take(i + 1).drop_last() =~= gitems.take(i as int));
                    assert(gitems.take(i + 1).last() == gitems[i as int]);
                    assert(mods.deep_view() =~= strings_of(gitems.take(i + 1)));
                }
                i += 1;
            }
            proof {
                assert(gitems.take(n as int) =~= gitems);
            }
        },
        None => {
            proof {
                assert(mods.deep_view() =~= Seq::<Seq<char>>::empty());
            }
        },
    }
    mods
}

/// The two-field object `{"x": x, "y": y}`.
fn point_value(x: i64, y: i64) -> (r: JsonValue)
    ensures
        jv_of(r) == Jv::Obj(seq![("x"@, Jv::Int(x as int)), ("y"@, Jv::Int(y as int))]),
{
    let mut o = JsonObj::new();
    o.add("x", JsonValue::Int(x));
    o.add("y", JsonValue::Int(y));
    let r = o.done();
    proof {
        assert(jv_of(JsonValue::Int(x)) == Jv::Int(x as int));
        assert(jv_of(JsonValue::Int(y)) == Jv::Int(y as int));
        assert(o@ =~= seq![("x"@, Jv::Int(x as int)), ("y"@, Jv::Int(y as int))]);
        assert(jv_of(r) =~~= Jv::Obj(seq![("x"@, Jv::Int(x as int)), ("y"@, Jv::Int(y as int))]));
    }
    r
}

/// Routes one tool call: dispatch by exact name, extraction and
/// defaulting as each tool declares, and the decided device action.
pub fn execute_tool(name: &str, args: &JsonValue) -> (r: ToolStep)
    ensures
        r.deep_view() == tool_action(name@, jv_of(*args)),
{
    let ghost gargs = jv_of(*args);
    if str_eq(name, "screen_capture") {
        ToolStep::Capture(extract_capture_args(args))
    } else if str_eq(name, "mouse_move") {
        let x = match args.get_i64("x") {
            Some(v) => v,
            None => {
                return ToolStep::Reject(String::from_str("Missing x coordinate"));
            },
        };
        let y = match args.get_i64("y") {
            Some(v) => v,
            None => {
                return ToolStep::Reject(String::from_str("Missing y coordinate"));
            },
        };
        let plan = plan_mouse_move(x, y);
        let mut res = JsonObj::new();
        res.add("success", JsonValue::Bool(true));
        res.add("position", point_value(x, y));
        let result = res.done();
        proof {
            assert(res@ =~= seq![
                ("success"@, Jv::Bool(true)),
                ("position"@, Jv::Obj(seq![("x"@, Jv::Int(x as int)), ("y"@, Jv::Int(y as int))])),
            ]);
            assert(jv_of(result) =~~= move_result(x as int, y as int));
        }
        ToolStep::Inject { plan, result }
    } else if str_eq(name, "mouse_click") {
        let x = args.get_i64("x");
        let y = args.get_i64("y");
        let button = extract_button(args);
        let double_click = match args.get_bool("double_click") {
            Some(d) => d,
            None => false,
        };
        let btn = parse_button(button.as_str());
        let plan = plan_mouse_click(x, y, btn, double_click);
        let mut res = JsonObj::new();
        res.add("success", JsonValue::Bool(true));
        res.add("button", JsonValue::Text(button));
        res.add("double_click", JsonValue::Bool(double_click));
        let result = res.done();
        proof {
            assert(res@ =~= seq![
                ("success"@, Jv::Bool(true)),
                ("button"@, Jv::Text(button_field(gargs))),
                ("double_click"@, Jv::Bool(double_click)),
            ]);
            assert(jv_of(result) =~~= click_result(button_field(gargs), double_click));
        }
        ToolStep::Inject { plan, result }
    } else if str_eq(name, "mouse_drag") {
        let from_x = match args.get_i64("from_x") {
            Some(v) => v,
            None => {
                return ToolStep::Reject(String::from_str("Missing from_x"));
            },
        };
        let from_y = match args.get_i64("from_y") {
            Some(v) => v,
            None => {
                return ToolStep::Reject(String::from_str("Missing from_y"));
            },
        };
        let to_x = match args.get_i64("to_x") {
            Some(v) => v,
            None => {
                return ToolStep::Reject(String::from_str("Missing to_x"));
            },
        };
        let to_y = match args.get_i64("to_y") {
            Some(v) => v,
            None => {
                return ToolStep::Reject(String::from_str("Missing to_y"));
            },
        };
        let button = extract_button(args);
        let duration_ms: u64 = match args.get_u64("duration_ms") {
            Some(d) => d,
            None => 500,
        };
        let btn = parse_button(button.as_str());
        let plan = plan_mouse_drag(from_x, from_y, to_x, to_y, btn, duration_ms);
        let mut res = JsonObj::new();
        res.add("success", JsonValue::Bool(true));
        res.add("from", point_value(from_x, from_y));
        res.add("to", point_value(to_x, to_y));
        let result = res.done();
        proof {
            assert(res@ =~= seq![
                ("success"@, Jv::Bool(true)),
                (
                    "from"@,
                    Jv::Obj(seq![("x"@, Jv::Int(from_x as int)), ("y"@, Jv::Int(from_y as int))]),
                ),
                (
                    "to"@,
                    Jv::Obj(seq![("x"@, Jv::Int(to_x as int)), ("y"@, Jv::Int(to_y as int))]),
                ),
            ]);
            assert(jv_of(result) =~~= drag_result(
                from_x as int,
                from_y as int,
                to_x as int,
                to_y as int,
            ));
        }
        ToolStep::Inject { plan, result }
    } else if str_eq(name, "key_tap") {
        let key: String = match args.get_str("key") {
            Some(s) => s.clone(),
            None => {
                return ToolStep::Reject(String::from_str("Missing key"));
            },
        };
        let modifiers = extract_modifiers(args);
        let plan = match plan_key_tap(key.as_str(), &modifiers) {
            Ok(p) => p,
            Err(e) => {
                return ToolStep::Reject(e);
            },
        };
        let ghost mods = modifiers.deep_view();
        let mut arr = JsonArr::new();
        let n = modifiers.len();
        let mut i: usize = 0;
        while i < n
            invariant
                n == modifiers.len(),
                mods == modifiers.deep_view(),
                i <= n,
                arr@ == mods.take(i as int).map_values(|m: Seq<char>| Jv::Text(m)),
            decreases n - i,
        {
            arr.add(JsonValue::Text(modifiers[i].clone()));
            proof {
                assert(arr@ =~= mods.take(i + 1).map_values(|m: Seq<char>| Jv::Text(m)));
            }
            i += 1;
        }
        proof {
            assert(mods.take(n as int) =~= mods);
        }
        let mut res = JsonObj::new();
        res.add("success", JsonValue::Bool(true));
        res.add("key", JsonValue::Text(key));
        res.add("modifiers", arr.done());
        let result = res.done();
        proof {
            assert(res@ =~= seq![
                ("success"@, Jv::Bool(true)),
                ("key"@, Jv::Text(str_field(gargs, "key"@)->0)),
                ("modifiers"@, Jv::Arr(mods.map_values(|m: Seq<char>| Jv::Text(m)))),
            ]);
            assert(jv_of(result) =~~= key_tap_result(str_field(gargs, "key"@)->0, mods));
        }
        ToolStep::Inject { plan, result }
    } else if str_eq(name, "type_text") {
        let text: String = match args.get_str("text") {
            Some(s) => s.clone(),
            None => {
                return ToolStep::Reject(String::from_str("Missing text"));
            },
        };
        let delay_ms: u64 = match args.get_u64("delay_ms") {
            Some(d) => d,
            None => 20,
        };
        let plan = plan_type_text(text.as_str(), delay_ms);
        let byte_len: usize = text.as_str().len();
        let length: i64 = if byte_len as u64 > 0x7fff_ffff_ffff_ffffu64 {
            0x7fff_ffff_ffff_ffff
        } else {
            byte_len as i64
        };
        let mut res = JsonObj::new();
        res.add("success", JsonValue::Bool(true));
        res.add("length", JsonValue::Int(length));
        let result = res.done();
        proof {
            assert(res@ =~= seq![
                ("success"@, Jv::Bool(true)),
                ("length"@, Jv::Int(len_as_int(encode_utf8(text@).len() as usize as int))),
            ]);
            assert(jv_of(result) =~~= type_text_result(text@));
        }
        ToolStep::Inject { plan, result }
    } else if str_eq(name, "get_screen_info") {
        ToolStep::ScreenInfo
    } else {
        ToolStep::Reject(String::from_str("Unknown tool: ").concat(name))
    }
}

/// Argument handling is a function of the name and the arguments
/// alone: equal calls decide equally, so one request handled twice
/// gives structurally identical outcomes.
pub proof fn lemma_execute_deterministic(
    name1: Seq<char>,
    args1: Jv,
    name2: Seq<char>,
    args2: Jv,
)
    requires
        name1 == name2,
        args1 == args2,
    ensures
        tool_action(name1, args1) == tool_action(name2, args2),
{
}

} // verus!
