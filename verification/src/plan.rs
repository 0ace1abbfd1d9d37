//! The device action layer: turns one requested operation (move, click,
//! drag, key tap, typed text) into the ordered sequence of abstract
//! input events and pauses that the injection backend must perform.
//!
//! The layer only plans; running a plan against the OS is the caller's
//! business. Every contract pins the produced sequence exactly, so the
//! temporal ordering of simulated input is part of the specification.

use vstd::prelude::*;
use vstd::arithmetic::div_mod::{lemma_div_by_multiple, lemma_div_is_ordered, lemma_div_of0,
    lemma_div_pos_is_pos};
use vstd::arithmetic::mul::lemma_mul_left_inequality;
use vstd::string::{StrSliceExecFns, StringExecFns};
use crate::keymap::{KeyCode, char_key, char_shift, char_to_key, get_modifier_key, key_of_name,
    modifier_of_name, parse_key};

verus! {

/// A mouse button as the protocol names it.
#[derive(Clone, Copy, PartialEq, Eq, Structural, Debug)]
pub enum MouseButton {
    Left,
    Right,
    Middle,
}

/// One abstract input event handed to the injection backend.
///
/// `DragMove` is distinct from `MouseMove`: a platform may have to emit
/// drag steps through a dedicated native event type for window managers
/// to recognise the drag.
#[derive(Clone, Copy, PartialEq, Eq, Structural, Debug)]
pub enum InputEvent {
    MouseMove { x: i64, y: i64 },
    DragMove { x: i64, y: i64, button: MouseButton },
    ButtonPress(MouseButton),
    ButtonRelease(MouseButton),
    KeyPress(KeyCode),
    KeyRelease(KeyCode),
}

/// One step of a plan: emit an event, or pause for some milliseconds.
#[derive(Clone, Copy, PartialEq, Eq, Structural, Debug)]
pub enum PlanStep {
    Emit(InputEvent),
    Pause(u64),
}

/// The plan of a plain cursor move: one event, no pauses.
pub open spec fn move_plan(x: i64, y: i64) -> Seq<PlanStep> {
    seq![PlanStep::Emit(InputEvent::MouseMove { x, y })]
}

/// Plans a cursor move.
pub fn plan_mouse_move(x: i64, y: i64) -> (r: Vec<PlanStep>)
    ensures
        r@ == move_plan(x, y),
{
    let mut out: Vec<PlanStep> = Vec::new();
    out.push(PlanStep::Emit(InputEvent::MouseMove { x, y }));
    proof {
        assert(out@ =~= move_plan(x, y));
    }
    out
}

/// One press/release pair with the fixed 10 ms gap between them.
pub open spec fn press_release(b: MouseButton) -> Seq<PlanStep> {
    seq![
        PlanStep::Emit(InputEvent::ButtonPress(b)),
        PlanStep::Pause(10),
        PlanStep::Emit(InputEvent::ButtonRelease(b)),
    ]
}

/// The plan of a click: an optional positioning move (only when both
/// coordinates are given), one press/release pair, and a second pair
/// after a 50 ms gap for a double click.
pub open spec fn click_plan(x: Option<i64>, y: Option<i64>, b: MouseButton, double: bool) -> Seq<
    PlanStep,
> {
    (if x is Some && y is Some {
        seq![
            PlanStep::Emit(InputEvent::MouseMove { x: x->0, y: y->0 }),
            PlanStep::Pause(10),
        ]
    } else {
        Seq::empty()
    }) + press_release(b) + (if double {
        seq![PlanStep::Pause(50)] + press_release(b)
    } else {
        Seq::empty()
    })
}

/// Plans a click at the current position or at `(x, y)`.
pub fn plan_mouse_click(x: Option<i64>, y: Option<i64>, button: MouseButton, double_click: bool) -> (r:
    Vec<PlanStep>)
    ensures
        r@ == click_plan(x, y, button, double_click),
{
    let mut out: Vec<PlanStep> = Vec::new();
    if let (Some(xv), Some(yv)) = (x, y) {
        out.push(PlanStep::Emit(InputEvent::MouseMove { x: xv, y: yv }));
        out.push(PlanStep::Pause(10));
    }
    out.push(PlanStep::Emit(InputEvent::ButtonPress(button)));
    out.push(PlanStep::Pause(10));
    out.push(PlanStep::Emit(InputEvent::ButtonRelease(button)));
    if double_click {
        out.push(PlanStep::Pause(50));
        out.push(PlanStep::Emit(InputEvent::ButtonPress(button)));
        out.push(PlanStep::Pause(10));
        out.push(PlanStep::Emit(InputEvent::ButtonRelease(button)));
    }
    proof {
        assert(out@ =~= click_plan(x, y, button, double_click));
    }
    out
}

/// How many button press or release events a plan holds.
pub open spec fn press_release_count(steps: Seq<PlanStep>) -> nat
    decreases steps,
{
    if steps.len() == 0 {
        0
    } else {
        press_release_count(steps.drop_last()) + (match steps.last() {
            PlanStep::Emit(InputEvent::ButtonPress(_)) => 1nat,
            PlanStep::Emit(InputEvent::ButtonRelease(_)) => 1nat,
            _ => 0nat,
        })
    }
}

/// How many positioning events (cursor or drag moves) a plan holds.
pub open spec fn move_count(steps: Seq<PlanStep>) -> nat
    decreases steps,
{
    if steps.len() == 0 {
        0
    } else {
        move_count(steps.drop_last()) + (match steps.last() {
            PlanStep::Emit(InputEvent::MouseMove { .. }) => 1nat,
            PlanStep::Emit(InputEvent::DragMove { .. }) => 1nat,
            _ => 0nat,
        })
    }
}

/// A click without coordinates presses and releases exactly twice for
/// a single click and four times for a double click, and never moves
/// the cursor.
pub proof fn lemma_click_counts(b: MouseButton, double: bool)
    ensures
        press_release_count(click_plan(None, None, b, double)) == if double {
            4nat
        } else {
            2nat
        },
        move_count(click_plan(None, None, b, double)) == 0,
{
    reveal_with_fuel(press_release_count, 9);
    reveal_with_fuel(move_count, 9);
    if double {
        let s = seq![
            PlanStep::Emit(InputEvent::ButtonPress(b)),
            PlanStep::Pause(10),
            PlanStep::Emit(InputEvent::ButtonRelease(b)),
            PlanStep::Pause(50),
            PlanStep::Emit(InputEvent::ButtonPress(b)),
            PlanStep::Pause(10),
            PlanStep::Emit(InputEvent::ButtonRelease(b)),
        ];
        assert(click_plan(None, None, b, double) =~= s);
        assert(s.drop_last() =~= s.take(6));
        assert(s.take(6).drop_last() =~= s.take(5));
        assert(s.take(5).drop_last() =~= s.take(4));
        assert(s.take(4).drop_last() =~= s.take(3));
        assert(s.take(3).drop_last() =~= s.take(2));
        assert(s.take(2).drop_last() =~= s.take(1));
        assert(s.take(1).drop_last() =~= s.take(0));
        assert(s.take(0) =~= Seq::<PlanStep>::empty());
        assert(press_release_count(s) == 4);
        assert(move_count(s) == 0);
    } else {
        let s = seq![
            PlanStep::Emit(InputEvent::ButtonPress(b)),
            PlanStep::Pause(10),
            PlanStep::Emit(InputEvent::ButtonRelease(b)),
        ];
        assert(click_plan(None, None, b, double) =~= s);
        assert(s.drop_last() =~= s.take(2));
        assert(s.take(2).drop_last() =~= s.take(1));
        assert(s.take(1).drop_last() =~= s.take(0));
        assert(s.take(0) =~= Seq::<PlanStep>::empty());
        assert(press_release_count(s) == 2);
        assert(move_count(s) == 0);
    }
}

/// Linear interpolation between two coordinates at step `i` of 20,
/// rounded toward the starting point.
pub open spec fn lerp(from: i64, to: i64, i: int) -> int {
    if to >= from {
        from + ((to - from) * i) / 20
    } else {
        from - ((from - to) * i) / 20
    }
}

/// The interpolated point never leaves the segment between the two ends.
pub proof fn lemma_lerp_in_range(from: i64, to: i64, i: int)
    requires
        0 <= i <= 20,
    ensures
        to >= from ==> from <= lerp(from, to, i) <= to,
        to < from ==> to <= lerp(from, to, i) <= from,
{
    let d: int = if to >= from {
        to - from
    } else {
        from - to
    };
    if d > 0 {
        lemma_mul_left_inequality(d, i, 20);
        lemma_div_is_ordered(d * i, d * 20, 20);
        lemma_div_by_multiple(d, 20);
        lemma_div_pos_is_pos(d * i, 20);
        assert(0 <= d * i) by (nonlinear_arith)
            requires
                0 <= d,
                0 <= i,
        ;
    } else {
        assert(d * i == 0) by (nonlinear_arith)
            requires
                d == 0,
        ;
        lemma_div_of0(20);
    }
}

/// Exact interpolation step, total over the whole coordinate range.
fn lerp_exec(from: i64, to: i64, i: u64) -> (r: i64)
    requires
        i <= 20,
    ensures
        r as int == lerp(from, to, i as int),
{
    proof {
        lemma_lerp_in_range(from, to, i as int);
    }
    if to >= from {
        let d: u128 = (to as i128 - from as i128) as u128;
        let off: u128 = d * (i as u128) / 20;
        (from as i128 + off as i128) as i64
    } else {
        let d: u128 = (from as i128 - to as i128) as u128;
        let off: u128 = d * (i as u128) / 20;
        (from as i128 - off as i128) as i64
    }
}

/// The two steps of one drag increment: the interpolated drag move and
/// the inter-step pause.
pub open spec fn drag_step_pair(
    from_x: i64,
    from_y: i64,
    to_x: i64,
    to_y: i64,
    b: MouseButton,
    delay: u64,
    i: int,
) -> Seq<PlanStep> {
    seq![
        PlanStep::Emit(
            InputEvent::DragMove {
                x: lerp(from_x, to_x, i) as i64,
                y: lerp(from_y, to_y, i) as i64,
                button: b,
            },
        ),
        PlanStep::Pause(delay),
    ]
}

/// The first `n` drag increments, in order.
pub open spec fn drag_steps(
    from_x: i64,
    from_y: i64,
    to_x: i64,
    to_y: i64,
    b: MouseButton,
    delay: u64,
    n: int,
) -> Seq<PlanStep>
    decreases n,
{
    if n <= 0 {
        Seq::empty()
    } else {
        drag_steps(from_x, from_y, to_x, to_y, b, delay, n - 1) + drag_step_pair(
            from_x,
            from_y,
            to_x,
            to_y,
            b,
            delay,
            n,
        )
    }
}

/// The plan of a drag: move to the start, 20 ms pause, press, 20 ms
/// pause, twenty interpolated drag increments each followed by the
/// per-step delay (`duration_ms / 20`, integer division), release.
pub open spec fn drag_plan(
    from_x: i64,
    from_y: i64,
    to_x: i64,
    to_y: i64,
    b: MouseButton,
    duration_ms: u64,
) -> Seq<PlanStep> {
    seq![
        PlanStep::Emit(InputEvent::MouseMove { x: from_x, y: from_y }),
        PlanStep::Pause(20),
        PlanStep::Emit(InputEvent::ButtonPress(b)),
        PlanStep::Pause(20),
    ] + drag_steps(from_x, from_y, to_x, to_y, b, (duration_ms / 20) as u64, 20) + seq![
        PlanStep::Emit(InputEvent::ButtonRelease(b)),
    ]
}

/// Plans a drag from one point to another.
pub fn plan_mouse_drag(
    from_x: i64,
    from_y: i64,
    to_x: i64,
    to_y: i64,
    button: MouseButton,
    duration_ms: u64,
) -> (r: Vec<PlanStep>)
    ensures
        r@ == drag_plan(from_x, from_y, to_x, to_y, button, duration_ms),
{
    let mut out: Vec<PlanStep> = Vec::new();
    out.push(PlanStep::Emit(InputEvent::MouseMove { x: from_x, y: from_y }));
    out.push(PlanStep::Pause(20));
    out.push(PlanStep::Emit(InputEvent::ButtonPress(button)));
    out.push(PlanStep::Pause(20));
    let ghost prefix: Seq<PlanStep> = out@;
    let step_delay: u64 = duration_ms / 20;
    let mut i: u64 = 1;
    while i <= 20
        invariant
            1 <= i <= 21,
            out@ == prefix + drag_steps(from_x, from_y, to_x, to_y, button, step_delay, i - 1),
        decreases 21 - i,
    {
        let x = lerp_exec(from_x, to_x, i);
        let y = lerp_exec(from_y, to_y, i);
        out.push(PlanStep::Emit(InputEvent::DragMove { x, y, button }));
        out.push(PlanStep::Pause(step_delay));
        proof {
            assert(out@ =~= prefix + drag_steps(
                from_x,
                from_y,
                to_x,
                to_y,
                button,
                step_delay,
                i as int,
            ));
        }
        i += 1;
    }
    out.push(PlanStep::Emit(InputEvent::ButtonRelease(button)));
    proof {
        assert(out@ =~= drag_plan(from_x, from_y, to_x, to_y, button, duration_ms));
    }
    out
}

/// The modifier presses of a key tap, in listed order; unknown modifier
/// names contribute nothing.
pub open spec fn mod_press_steps(mods: Seq<Seq<char>>) -> Seq<PlanStep>
    decreases mods.len(),
{
    if mods.len() == 0 {
        Seq::empty()
    } else {
        mod_press_steps(mods.drop_last()) + (match modifier_of_name(mods.last()) {
            Some(k) => seq![PlanStep::Emit(InputEvent::KeyPress(k))],
            None => Seq::empty(),
        })
    }
}

/// The modifier releases of a key tap, in reverse listed order.
pub open spec fn mod_release_steps(mods: Seq<Seq<char>>) -> Seq<PlanStep>
    decreases mods.len(),
{
    if mods.len() == 0 {
        Seq::empty()
    } else {
        (match modifier_of_name(mods.last()) {
            Some(k) => seq![PlanStep::Emit(InputEvent::KeyRelease(k))],
            None => Seq::empty(),
        }) + mod_release_steps(mods.drop_last())
    }
}

proof fn lemma_mod_release_cons(x: Seq<char>, t: Seq<Seq<char>>)
    ensures
        mod_release_steps(seq![x] + t) == mod_release_steps(t) + (match modifier_of_name(x) {
            Some(k) => seq![PlanStep::Emit(InputEvent::KeyRelease(k))],
            None => Seq::<PlanStep>::empty(),
        }),
    decreases t.len(),
{
    let s = seq![x] + t;
    if t.len() == 0 {
        assert(s.len() == 1);
        assert(s.drop_last() =~= Seq::<Seq<char>>::empty());
        assert(s.last() == x);
        assert(mod_release_steps(s.drop_last()) =~= Seq::<PlanStep>::empty());
        assert(mod_release_steps(s) =~= mod_release_steps(t) + (match modifier_of_name(x) {
            Some(k) => seq![PlanStep::Emit(InputEvent::KeyRelease(k))],
            None => Seq::<PlanStep>::empty(),
        }));
    } else {
        assert(s.last() == t.last());
        assert(s.drop_last() =~= seq![x] + t.drop_last());
        lemma_mod_release_cons(x, t.drop_last());
        assert(mod_release_steps(s) =~= mod_release_steps(t) + (match modifier_of_name(x) {
            Some(k) => seq![PlanStep::Emit(InputEvent::KeyRelease(k))],
            None => Seq::<PlanStep>::empty(),
        }));
    }
}

/// The plan of a key tap: modifiers pressed in listed order, a 10 ms
/// settle, the key pressed and released with 10 ms gaps, then the
/// modifiers released in reverse listed order.
pub open spec fn key_tap_plan(key: KeyCode, mods: Seq<Seq<char>>) -> Seq<PlanStep> {
    mod_press_steps(mods) + seq![
        PlanStep::Pause(10),
        PlanStep::Emit(InputEvent::KeyPress(key)),
        PlanStep::Pause(10),
        PlanStep::Emit(InputEvent::KeyRelease(key)),
        PlanStep::Pause(10),
    ] + mod_release_steps(mods)
}

/// Plans a key tap. An unknown key name is a hard failure naming the
/// key; unknown modifier names are silently ignored.
pub fn plan_key_tap(key_str: &str, modifiers: &Vec<String>) -> (r: Result<Vec<PlanStep>, String>)
    ensures
        key_of_name(key_str@) is Some ==> r is Ok && r->Ok_0@ == key_tap_plan(
            key_of_name(key_str@)->0,
            modifiers.deep_view(),
        ),
        key_of_name(key_str@) is None ==> r is Err && r->Err_0@ == "Unknown key: "@ + key_str@,
{
    let parsed = parse_key(key_str);
    let key = match parsed {
        Some(k) => k,
        None => {
            return Err(String::from_str("Unknown key: ").concat(key_str));
        },
    };
    let ghost mods: Seq<Seq<char>> = modifiers.deep_view();
    let mut out: Vec<PlanStep> = Vec::new();
    let n = modifiers.len();
    let mut i: usize = 0;
    while i < n
        invariant
            n == modifiers.len(),
            i <= n,
            mods == modifiers.deep_view(),
            out@ == mod_press_steps(mods.take(i as int)),
        decreases n - i,
    {
        if let Some(mod_key) = get_modifier_key(modifiers[i].as_str()) {
            out.push(PlanStep::Emit(InputEvent::KeyPress(mod_key)));
        }
        proof {
            assert(mods.take(i + 1).drop_last() =~= mods.take(i as int));
            assert(mods.take(i + 1).last() == mods[i as int]);
            assert(out@ =~= mod_press_steps(mods.take(i + 1)));
        }
        i += 1;
    }
    proof {
        assert(mods.take(n as int) =~= mods);
    }
    out.push(PlanStep::Pause(10));
    out.push(PlanStep::Emit(InputEvent::KeyPress(key)));
    out.push(PlanStep::Pause(10));
    out.push(PlanStep::Emit(InputEvent::KeyRelease(key)));
    out.push(PlanStep::Pause(10));
    let ghost prefix: Seq<PlanStep> = out@;
    let mut j: usize = n;
    while j > 0
        invariant
            n == modifiers.len(),
            j <= n,
            mods == modifiers.deep_view(),
            out@ == prefix + mod_release_steps(mods.skip(j as int)),
        decreases j,
    {
        j -= 1;
        if let Some(mod_key) = get_modifier_key(modifiers[j].as_str()) {
            out.push(PlanStep::Emit(InputEvent::KeyRelease(mod_key)));
        }
        proof {
            assert(mods.skip(j as int) =~= seq![mods[j as int]] + mods.skip(j + 1));
            lemma_mod_release_cons(mods[j as int], mods.skip(j + 1));
            assert(out@ =~= prefix + mod_release_steps(mods.skip(j as int)));
        }
    }
    proof {
        assert(mods.skip(0) =~= mods);
        assert(out@ =~= key_tap_plan(key, mods));
    }
    Ok(out)
}

/// The steps one typed character contributes: nothing for an unmapped
/// character; otherwise the key press/release with 5 ms gaps, bracketed
/// by a shift press and release when the character needs shift, then
/// the per-character delay.
pub open spec fn type_char_steps(c: char, delay: u64) -> Seq<PlanStep> {
    match char_key(c) {
        None => Seq::empty(),
        Some(k) => (if char_shift(c) {
            seq![PlanStep::Emit(InputEvent::KeyPress(KeyCode::ShiftLeft)), PlanStep::Pause(5)]
        } else {
            Seq::empty()
        }) + seq![
            PlanStep::Emit(InputEvent::KeyPress(k)),
            PlanStep::Pause(5),
            PlanStep::Emit(InputEvent::KeyRelease(k)),
        ] + (if char_shift(c) {
            seq![PlanStep::Pause(5), PlanStep::Emit(InputEvent::KeyRelease(KeyCode::ShiftLeft))]
        } else {
            Seq::empty()
        }) + seq![PlanStep::Pause(delay)],
    }
}

/// The steps of a typed text: each character's steps in text order.
pub open spec fn type_text_steps(s: Seq<char>, delay: u64) -> Seq<PlanStep>
    decreases s.len(),
{
    if s.len() == 0 {
        Seq::empty()
    } else {
        type_text_steps(s.drop_last(), delay) + type_char_steps(s.last(), delay)
    }
}

/// Shift brackets exactly the one character that needs it: a shifted
/// character's steps begin with the shift press and end with the shift
/// release before its own delay, an unshifted character's steps hold
/// no shift event at all, and an unmapped character contributes
/// nothing — so no shift ever spans two characters.
pub proof fn lemma_shift_brackets_char(c: char, delay: u64)
    ensures
        char_key(c) is Some && char_shift(c) ==> type_char_steps(c, delay) == seq![
            PlanStep::Emit(InputEvent::KeyPress(KeyCode::ShiftLeft)),
            PlanStep::Pause(5),
            PlanStep::Emit(InputEvent::KeyPress(char_key(c)->0)),
            PlanStep::Pause(5),
            PlanStep::Emit(InputEvent::KeyRelease(char_key(c)->0)),
            PlanStep::Pause(5),
            PlanStep::Emit(InputEvent::KeyRelease(KeyCode::ShiftLeft)),
            PlanStep::Pause(delay),
        ],
        char_key(c) is Some && !char_shift(c) ==> type_char_steps(c, delay) == seq![
            PlanStep::Emit(InputEvent::KeyPress(char_key(c)->0)),
            PlanStep::Pause(5),
            PlanStep::Emit(InputEvent::KeyRelease(char_key(c)->0)),
            PlanStep::Pause(delay),
        ],
        char_key(c) is None ==> type_char_steps(c, delay) == Seq::<PlanStep>::empty(),
{
    match char_key(c) {
        Some(k) => {
            if char_shift(c) {
                assert(type_char_steps(c, delay) =~= seq![
                    PlanStep::Emit(InputEvent::KeyPress(KeyCode::ShiftLeft)),
                    PlanStep::Pause(5),
                    PlanStep::Emit(InputEvent::KeyPress(k)),
                    PlanStep::Pause(5),
                    PlanStep::Emit(InputEvent::KeyRelease(k)),
                    PlanStep::Pause(5),
                    PlanStep::Emit(InputEvent::KeyRelease(KeyCode::ShiftLeft)),
                    PlanStep::Pause(delay),
                ]);
            } else {
                assert(type_char_steps(c, delay) =~= seq![
                    PlanStep::Emit(InputEvent::KeyPress(k)),
                    PlanStep::Pause(5),
                    PlanStep::Emit(InputEvent::KeyRelease(k)),
                    PlanStep::Pause(delay),
                ]);
            }
        },
        None => {
        },
    }
}

/// Plans typing a string character by character; unmapped characters
/// are skipped entirely, with no delay charged.
pub fn plan_type_text(text: &str, delay_ms: u64) -> (r: Vec<PlanStep>)
    ensures
        r@ == type_text_steps(text@, delay_ms),
{
    let len = text.unicode_len();
    let mut out: Vec<PlanStep> = Vec::new();
    let mut i: usize = 0;
    while i < len
        invariant
            len == text@.len(),
            i <= len,
            out@ == type_text_steps(text@.take(i as int), delay_ms),
        decreases len - i,
    {
        let c = text.get_char(i);
        let (key, needs_shift) = char_to_key(c);
        if let Some(k) = key {
            if needs_shift {
                out.push(PlanStep::Emit(InputEvent::KeyPress(KeyCode::ShiftLeft)));
                out.push(PlanStep::Pause(5));
            }
            out.push(PlanStep::Emit(InputEvent::KeyPress(k)));
            out.push(PlanStep::Pause(5));
            out.push(PlanStep::Emit(InputEvent::KeyRelease(k)));
            if needs_shift {
                out.push(PlanStep::Pause(5));
                out.push(PlanStep::Emit(InputEvent::KeyRelease(KeyCode::ShiftLeft)));
            }
            out.push(PlanStep::Pause(delay_ms));
        }
        proof {
            assert(text@.take(i + 1).drop_last() =~= text@.take(i as int));
            assert(text@.take(i + 1).last() == text@[i as int]);
            assert(out@ =~= type_text_steps(text@.take(i + 1), delay_ms));
        }
        i += 1;
    }
    proof {
        assert(text@.take(len as int) =~= text@);
    }
    out
}

} // verus!
