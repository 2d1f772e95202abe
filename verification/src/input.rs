//! What the input driver is asked to do, stroke by stroke.
//!
//! A key specification such as `a`, `enter` or `ctrl+c` is turned into the
//! strokes that type it. The caller performs the strokes in order and
//! reports a failure where the plan says that the specification is not
//! supported.

use vstd::prelude::*;
use crate::models::MouseButton;
use crate::text::{
    contains_pattern, lowercase, lowercased, occurs, occurs_at, same_text, split_first,
};

verus! {

/// A key of the keyboard.
#[derive(Debug, Clone, Copy, PartialEq, Eq, Structural)]
pub enum Key {
    Control,
    /// The key that types this character in the current layout.
    Layout(char),
    Tab,
    Return,
    Backspace,
    Delete,
    Home,
    End,
    PageUp,
    PageDown,
    UpArrow,
    DownArrow,
    LeftArrow,
    RightArrow,
    Space,
    Escape,
    F1,
    F2,
    F3,
    F4,
    F5,
    F6,
    F7,
    F8,
    F9,
    F10,
    F11,
    F12,
}

/// One thing to do on the input devices.
#[derive(Debug, Clone, Copy, PartialEq, Eq, Structural)]
pub enum Stroke {
    KeyDown(Key),
    KeyUp(Key),
    KeyClick(Key),
    MouseMoveTo { x: i32, y: i32 },
    MouseClick(MouseButton),
    Pause { millis: u64 },
}

/// The strokes of a key specification. Where `supported` is false the
/// strokes are those that come before the part that is not understood, and
/// the key press as a whole has failed.
#[derive(Debug, PartialEq)]
pub struct KeyPlan {
    pub strokes: Vec<Stroke>,
    pub supported: bool,
}

/// The special key that a lower-case name stands for.
pub open spec fn special_key(name: Seq<char>) -> Option<Key> {
    if name == "tab"@ {
        Some(Key::Tab)
    } else if name == "enter"@ {
        Some(Key::Return)
    } else if name == "backspace"@ {
        Some(Key::Backspace)
    } else if name == "delete"@ {
        Some(Key::Delete)
    } else if name == "home"@ {
        Some(Key::Home)
    } else if name == "end"@ {
        Some(Key::End)
    } else if name == "pageup"@ {
        Some(Key::PageUp)
    } else if name == "pagedown"@ {
        Some(Key::PageDown)
    } else if name == "up"@ {
        Some(Key::UpArrow)
    } else if name == "down"@ {
        Some(Key::DownArrow)
    } else if name == "left"@ {
        Some(Key::LeftArrow)
    } else if name == "right"@ {
        Some(Key::RightArrow)
    } else if name == "space"@ {
        Some(Key::Space)
    } else if name == "escape"@ {
        Some(Key::Escape)
    } else if name == "f1"@ {
        Some(Key::F1)
    } else if name == "f2"@ {
        Some(Key::F2)
    } else if name == "f3"@ {
        Some(Key::F3)
    } else if name == "f4"@ {
        Some(Key::F4)
    } else if name == "f5"@ {
        Some(Key::F5)
    } else if name == "f6"@ {
        Some(Key::F6)
    } else if name == "f7"@ {
        Some(Key::F7)
    } else if name == "f8"@ {
        Some(Key::F8)
    } else if name == "f9"@ {
        Some(Key::F9)
    } else if name == "f10"@ {
        Some(Key::F10)
    } else if name == "f11"@ {
        Some(Key::F11)
    } else if name == "f12"@ {
        Some(Key::F12)
    } else {
        None
    }
}

/// The special key that a lower-case name stands for.
pub fn special_key_named(name: &str) -> (r: Option<Key>)
    ensures
        r == special_key(name@),
{
    if same_text(name, "tab") {
        Some(Key::Tab)
    } else if same_text(name, "enter") {
        Some(Key::Return)
    } else if same_text(name, "backspace") {
        Some(Key::Backspace)
    } else if same_text(name, "delete") {
        Some(Key::Delete)
    } else if same_text(name, "home") {
        Some(Key::Home)
    } else if same_text(name, "end") {
        Some(Key::End)
    } else if same_text(name, "pageup") {
        Some(Key::PageUp)
    } else if same_text(name, "pagedown") {
        Some(Key::PageDown)
    } else if same_text(name, "up") {
        Some(Key::UpArrow)
    } else if same_text(name, "down") {
        Some(Key::DownArrow)
    } else if same_text(name, "left") {
        Some(Key::LeftArrow)
    } else if same_text(name, "right") {
        Some(Key::RightArrow)
    } else if same_text(name, "space") {
        Some(Key::Space)
    } else if same_text(name, "escape") {
        Some(Key::Escape)
    } else if same_text(name, "f1") {
        Some(Key::F1)
    } else if same_text(name, "f2") {
        Some(Key::F2)
    } else if same_text(name, "f3") {
        Some(Key::F3)
    } else if same_text(name, "f4") {
        Some(Key::F4)
    } else if same_text(name, "f5") {
        Some(Key::F5)
    } else if same_text(name, "f6") {
        Some(Key::F6)
    } else if same_text(name, "f7") {
        Some(Key::F7)
    } else if same_text(name, "f8") {
        Some(Key::F8)
    } else if same_text(name, "f9") {
        Some(Key::F9)
    } else if same_text(name, "f10") {
        Some(Key::F10)
    } else if same_text(name, "f11") {
        Some(Key::F11)
    } else if same_text(name, "f12") {
        Some(Key::F12)
    } else {
        None
    }
}

/// The text is one character that takes one byte.
pub open spec fn single_byte(text: Seq<char>) -> bool {
    text.len() == 1 && (text[0] as u32) < 128
}

fn is_single_byte(text: &str) -> (r: bool)
    ensures
        r == single_byte(text@),
{
    text.unicode_len() == 1 && (text.get_char(0) as u32) < 128
}

/// Holding the control key, one click of a character key.
pub open spec fn chord(c: char) -> Seq<Stroke> {
    seq![
        Stroke::KeyDown(Key::Control),
        Stroke::Pause { millis: 100 },
        Stroke::KeyClick(Key::Layout(c)),
        Stroke::Pause { millis: 100 },
        Stroke::KeyUp(Key::Control),
        Stroke::Pause { millis: 300 },
    ]
}

/// Select everything, then cut: both under one hold of the control key.
pub open spec fn cut_chord() -> Seq<Stroke> {
    seq![
        Stroke::KeyDown(Key::Control),
        Stroke::Pause { millis: 100 },
        Stroke::KeyClick(Key::Layout('a')),
        Stroke::Pause { millis: 300 },
        Stroke::KeyClick(Key::Layout('x')),
        Stroke::Pause { millis: 100 },
        Stroke::KeyUp(Key::Control),
        Stroke::Pause { millis: 300 },
    ]
}

/// Holding the control key, one click of any key, without the closing
/// pause.
pub open spec fn held_click(key: Key) -> Seq<Stroke> {
    seq![
        Stroke::KeyDown(Key::Control),
        Stroke::Pause { millis: 100 },
        Stroke::KeyClick(key),
        Stroke::Pause { millis: 100 },
        Stroke::KeyUp(Key::Control),
    ]
}

/// The strokes of the control key with a lower-case key name, and whether
/// the name is supported.
pub open spec fn control_strokes(sub_key: Seq<char>) -> (Seq<Stroke>, bool) {
    if sub_key == "a"@ {
        (chord('a'), true)
    } else if sub_key == "c"@ {
        (chord('c'), true)
    } else if sub_key == "v"@ {
        (chord('v'), true)
    } else if sub_key == "x"@ {
        (cut_chord(), true)
    } else if single_byte(sub_key) {
        (held_click(Key::Layout(sub_key[0])), true)
    } else {
        match special_key(sub_key) {
            Some(key) => (held_click(key), true),
            None => (seq![Stroke::KeyDown(Key::Control), Stroke::Pause { millis: 100 }], false),
        }
    }
}

fn chord_strokes(c: char) -> (r: Vec<Stroke>)
    ensures
        r@ == chord(c),
{
    let mut out: Vec<Stroke> = Vec::new();
    out.push(Stroke::KeyDown(Key::Control));
    out.push(Stroke::Pause { millis: 100 });
    out.push(Stroke::KeyClick(Key::Layout(c)));
    out.push(Stroke::Pause { millis: 100 });
    out.push(Stroke::KeyUp(Key::Control));
    out.push(Stroke::Pause { millis: 300 });
    assert(out@ =~= chord(c));
    out
}

fn held_click_strokes(key: Key) -> (r: Vec<Stroke>)
    ensures
        r@ == held_click(key),
{
    let mut out: Vec<Stroke> = Vec::new();
    out.push(Stroke::KeyDown(Key::Control));
    out.push(Stroke::Pause { millis: 100 });
    out.push(Stroke::KeyClick(key));
    out.push(Stroke::Pause { millis: 100 });
    out.push(Stroke::KeyUp(Key::Control));
    assert(out@ =~= held_click(key));
    out
}

/// The plan of the control key with a lower-case key name. An unsupported
/// name leaves the control key down: the plan ends where the driver would
/// have stopped.
pub fn control_plan(sub_key: &str) -> (r: KeyPlan)
    ensures
        (r.strokes@, r.supported) == control_strokes(sub_key@),
{
    if same_text(sub_key, "a") {
        KeyPlan { strokes: chord_strokes('a'), supported: true }
    } else if same_text(sub_key, "c") {
        KeyPlan { strokes: chord_strokes('c'), supported: true }
    } else if same_text(sub_key, "v") {
        KeyPlan { strokes: chord_strokes('v'), supported: true }
    } else if same_text(sub_key, "x") {
        let mut out: Vec<Stroke> = Vec::new();
        out.push(Stroke::KeyDown(Key::Control));
        out.push(Stroke::Pause { millis: 100 });
        out.push(Stroke::KeyClick(Key::Layout('a')));
        out.push(Stroke::Pause { millis: 300 });
        out.push(Stroke::KeyClick(Key::Layout('x')));
        out.push(Stroke::Pause { millis: 100 });
        out.push(Stroke::KeyUp(Key::Control));
        out.push(Stroke::Pause { millis: 300 });
        assert(out@ =~= cut_chord());
        KeyPlan { strokes: out, supported: true }
    } else if is_single_byte(sub_key) {
        KeyPlan { strokes: held_click_strokes(Key::Layout(sub_key.get_char(0))), supported: true }
    } else {
        match special_key_named(sub_key) {
            Some(key) => KeyPlan { strokes: held_click_strokes(key), supported: true },
            None => {
                let mut out: Vec<Stroke> = Vec::new();
                out.push(Stroke::KeyDown(Key::Control));
                out.push(Stroke::Pause { millis: 100 });
                assert(out@ =~= seq![
                    Stroke::KeyDown(Key::Control),
                    Stroke::Pause { millis: 100 },
                ]);
                KeyPlan { strokes: out, supported: false }
            },
        }
    }
}

/// The strokes of a key without a modifier, from its specification and the
/// same in lower case: a single character is pressed and released, a longer
/// specification must name a special key.
pub open spec fn plain_strokes(key: Seq<char>, lower: Seq<char>) -> (Seq<Stroke>, bool) {
    if single_byte(key) {
        (
            seq![
                Stroke::KeyDown(Key::Layout(key[0])),
                Stroke::Pause { millis: 50 },
                Stroke::KeyUp(Key::Layout(key[0])),
                Stroke::Pause { millis: 50 },
            ],
            true,
        )
    } else {
        match special_key(lower) {
            Some(k) => (seq![Stroke::KeyClick(k)], true),
            None => (Seq::empty(), false),
        }
    }
}

/// The plan of a key without a modifier.
pub fn plain_plan(key: &str, lower: &str) -> (r: KeyPlan)
    ensures
        (r.strokes@, r.supported) == plain_strokes(key@, lower@),
{
    let mut out: Vec<Stroke> = Vec::new();
    if is_single_byte(key) {
        let c = key.get_char(0);
        out.push(Stroke::KeyDown(Key::Layout(c)));
        out.push(Stroke::Pause { millis: 50 });
        out.push(Stroke::KeyUp(Key::Layout(c)));
        out.push(Stroke::Pause { millis: 50 });
        assert(out@ =~= plain_strokes(key@, lower@).0);
        KeyPlan { strokes: out, supported: true }
    } else {
        match special_key_named(lower) {
            Some(k) => {
                out.push(Stroke::KeyClick(k));
                assert(out@ =~= seq![Stroke::KeyClick(k)]);
                KeyPlan { strokes: out, supported: true }
            },
            None => {
                assert(out@ =~= Seq::<Stroke>::empty());
                KeyPlan { strokes: out, supported: false }
            },
        }
    }
}

/// `piece` is what stands in `text` between the first place of `pattern`
/// and the next one after it, or the end of the text.
pub open spec fn is_second_piece(text: Seq<char>, pattern: Seq<char>, piece: Seq<char>) -> bool {
    exists|front: Seq<char>, back: Seq<char>|
        {
            &&& #[trigger] (front + pattern + back) == text
            &&& forall|at: int| 0 <= at < front.len() ==> !occurs_at(text, pattern, at)
            &&& if occurs(back, pattern) {
                exists|rest: Seq<char>|
                    {
                        &&& #[trigger] (piece + pattern + rest) == back
                        &&& forall|at: int| 0 <= at < piece.len() ==> !occurs_at(back, pattern, at)
                    }
            } else {
                piece == back
            }
        }
}

/// What stands in a text between the first place of a pattern and the next
/// one after it; `None` where the pattern stands nowhere.
pub fn second_piece<'a>(text: &'a str, pattern: &str) -> (r: Option<&'a str>)
    ensures
        r is Some == occurs(text@, pattern@),
        r matches Some(piece) ==> is_second_piece(text@, pattern@, piece@),
{
    match split_first(text, pattern) {
        None => None,
        Some((front, back)) => {
            let piece = match split_first(back, pattern) {
                None => back,
                Some((piece, rest)) => {
                    assert((piece@ + pattern@ + rest@) == back@);
                    piece
                },
            };
            assert((front@ + pattern@ + back@) == text@);
            Some(piece)
        },
    }
}

/// The modifier pattern that a key specification is read by: `ctrl+` where
/// its lower-case form holds that, else `control+` where it holds that.
pub open spec fn modifier_pattern(lower: Seq<char>) -> Option<Seq<char>> {
    if occurs(lower, "ctrl+"@) {
        Some("ctrl+"@)
    } else if occurs(lower, "control+"@) {
        Some("control+"@)
    } else {
        None
    }
}

/// What `keyboard_press_key` plans for a specification.
///
/// A specification whose lower-case form holds a modifier pattern is a
/// control chord. Its key is looked for behind the pattern as the
/// specification itself spells it; where the specification spells the
/// pattern in another letter case, nothing is found and the key press fails
/// before any stroke.
pub open spec fn plans(key: Seq<char>, r: KeyPlan) -> bool {
    match modifier_pattern(lowercased(key)) {
        Some(pattern) => if occurs(key, pattern) {
            exists|piece: Seq<char>|
                is_second_piece(key, pattern, piece) && (r.strokes@, r.supported)
                    == control_strokes(lowercased(piece))
        } else {
            r.strokes@.len() == 0 && !r.supported
        },
        None => (r.strokes@, r.supported) == plain_strokes(key, lowercased(key)),
    }
}

/// Plans the strokes that press a key or a control chord.
pub fn keyboard_press_key(key: &str) -> (r: KeyPlan)
    ensures
        plans(key@, r),
{
    let lower = lowercase(key);
    let pattern = if contains_pattern(lower.as_str(), "ctrl+") {
        "ctrl+"
    } else if contains_pattern(lower.as_str(), "control+") {
        "control+"
    } else {
        return plain_plan(key, lower.as_str());
    };
    match second_piece(key, pattern) {
        Some(piece) => {
            let sub_key = lowercase(piece);
            control_plan(sub_key.as_str())
        },
        None => KeyPlan { strokes: Vec::new(), supported: false },
    }
}

/// The strokes that copy the selection.
pub fn perform_copy() -> (r: Vec<Stroke>)
    ensures
        r@ == chord('c'),
{
    chord_strokes('c')
}

/// The strokes that paste the clipboard.
pub fn perform_paste() -> (r: Vec<Stroke>)
    ensures
        r@ == chord('v'),
{
    chord_strokes('v')
}

/// The strokes that select everything.
pub fn perform_select_all() -> (r: Vec<Stroke>)
    ensures
        r@ == chord('a'),
{
    chord_strokes('a')
}

/// The stroke that moves the pointer.
pub fn mouse_move(x: i32, y: i32) -> (r: Vec<Stroke>)
    ensures
        r@ == seq![Stroke::MouseMoveTo { x, y }],
{
    let mut out: Vec<Stroke> = Vec::new();
    out.push(Stroke::MouseMoveTo { x, y });
    assert(out@ =~= seq![Stroke::MouseMoveTo { x, y }]);
    out
}

/// The stroke that clicks a button.
pub fn mouse_click(button: MouseButton) -> (r: Vec<Stroke>)
    ensures
        r@ == seq![Stroke::MouseClick(button)],
{
    let mut out: Vec<Stroke> = Vec::new();
    out.push(Stroke::MouseClick(button));
    assert(out@ =~= seq![Stroke::MouseClick(button)]);
    out
}

/// The strokes that click a button twice, a twentieth of a second apart.
pub fn mouse_double_click(button: MouseButton) -> (r: Vec<Stroke>)
    ensures
        r@ == seq![
            Stroke::MouseClick(button),
            Stroke::Pause { millis: 50 },
            Stroke::MouseClick(button),
        ],
{
    let mut out: Vec<Stroke> = Vec::new();
    out.push(Stroke::MouseClick(button));
    out.push(Stroke::Pause { millis: 50 });
    out.push(Stroke::MouseClick(button));
    assert(out@ =~= seq![
        Stroke::MouseClick(button),
        Stroke::Pause { millis: 50 },
        Stroke::MouseClick(button),
    ]);
    out
}

} // verus!
