//! The recording engine: turns samples of the pointer and the keyboard into
//! recorded steps.
//!
//! The caller samples the input at a fixed interval and hands each sample to
//! the recorder, with the time of the sample in milliseconds on a clock that
//! never runs backwards. Keys are known by their names as the input driver
//! spells them: `A`, `LShift`, `F7`.

use vstd::prelude::*;
use vstd::string::StringExecFns;
use crate::models::{KeyboardEvent, MouseButton, MouseEvent, MousePosition, WebSocketMessage};
use crate::text::{contains_text, lowercase, lowercased, same_text, texts};

verus! {

/// A click is not detected within this many milliseconds of the last one.
pub const CLICK_COOLDOWN_MS: u64 = 300;

/// A combination counts once its first key has been held this long.
pub const COMBO_DWELL_MS: u64 = 300;

/// One sample of the input devices.
#[derive(Debug, PartialEq)]
pub struct InputSample {
    pub x: i32,
    pub y: i32,
    /// For each button index of the driver, whether it is held.
    pub buttons: Vec<bool>,
    /// Names of the keys that are held.
    pub keys: Vec<String>,
    pub now_ms: u64,
}

/// A step that the recorder derived.
#[derive(Debug, PartialEq)]
pub enum RecordedStep {
    MouseMove { x: i32, y: i32 },
    MouseClick { button: MouseButton },
    KeyPress { key: String },
}

/// A recorded step as contracts see it.
pub enum RecordedModel {
    MouseMove { x: i32, y: i32 },
    MouseClick { button: MouseButton },
    KeyPress { key: Seq<char> },
}

impl View for RecordedStep {
    type V = RecordedModel;

    open spec fn view(&self) -> RecordedModel {
        match *self {
            RecordedStep::MouseMove { x, y } => RecordedModel::MouseMove { x, y },
            RecordedStep::MouseClick { button } => RecordedModel::MouseClick { button },
            RecordedStep::KeyPress { key } => RecordedModel::KeyPress { key: key@ },
        }
    }
}

/// The models of a list of recorded steps, in order.
pub open spec fn recorded_models(steps: Seq<RecordedStep>) -> Seq<RecordedModel> {
    steps.map_values(|s: RecordedStep| s@)
}

impl RecordedStep {
    /// The kind tag of the macro step that stores this recorded step.
    pub fn kind(&self) -> (r: &'static str)
        ensures
            r@ == match *self {
                RecordedStep::MouseMove { .. } => "mouse_move"@,
                RecordedStep::MouseClick { .. } => "mouse_click"@,
                RecordedStep::KeyPress { .. } => "key_press"@,
            },
    {
        match self {
            RecordedStep::MouseMove { .. } => "mouse_move",
            RecordedStep::MouseClick { .. } => "mouse_click",
            RecordedStep::KeyPress { .. } => "key_press",
        }
    }

    /// The wait that is stored with this recorded step, in milliseconds.
    pub fn wait_millis(&self) -> (r: u64)
        ensures
            r == match *self {
                RecordedStep::MouseMove { .. } => 200u64,
                RecordedStep::MouseClick { .. } => 500u64,
                RecordedStep::KeyPress { .. } => 300u64,
            },
    {
        match self {
            RecordedStep::MouseMove { .. } => 200,
            RecordedStep::MouseClick { .. } => 500,
            RecordedStep::KeyPress { .. } => 300,
        }
    }
}

/// The name of a mouse button as a payload spells it.
pub fn button_name(button: MouseButton) -> (r: &'static str)
    ensures
        r@ == match button {
            MouseButton::Left => "left"@,
            MouseButton::Right => "right"@,
            MouseButton::Middle => "middle"@,
        },
{
    match button {
        MouseButton::Left => "left",
        MouseButton::Right => "right",
        MouseButton::Middle => "middle",
    }
}

/// A letter key is named by one capital letter from `A` to `Z`.
pub open spec fn letter_key(name: Seq<char>) -> bool {
    name.len() == 1 && 'A' <= name[0] && name[0] <= 'Z'
}

/// Whether a key is a letter key.
pub fn is_letter_key(key: &str) -> (r: bool)
    ensures
        r == letter_key(key@),
{
    if key.unicode_len() != 1 {
        return false;
    }
    let c = key.get_char(0);
    'A' <= c && c <= 'Z'
}

/// The function keys `F1` to `F12`, which the host application keeps for
/// its own shortcuts.
pub open spec fn function_key(name: Seq<char>) -> bool {
    ||| name == "F1"@
    ||| name == "F2"@
    ||| name == "F3"@
    ||| name == "F4"@
    ||| name == "F5"@
    ||| name == "F6"@
    ||| name == "F7"@
    ||| name == "F8"@
    ||| name == "F9"@
    ||| name == "F10"@
    ||| name == "F11"@
    ||| name == "F12"@
}

/// Whether a key is one of the function keys `F1` to `F12`.
pub fn is_function_key(key: &str) -> (r: bool)
    ensures
        r == function_key(key@),
{
    same_text(key, "F1") || same_text(key, "F2") || same_text(key, "F3")
        || same_text(key, "F4") || same_text(key, "F5") || same_text(key, "F6")
        || same_text(key, "F7") || same_text(key, "F8") || same_text(key, "F9")
        || same_text(key, "F10") || same_text(key, "F11") || same_text(key, "F12")
}

/// The two shift keys.
pub open spec fn shift_key(name: Seq<char>) -> bool {
    name == "LShift"@ || name == "RShift"@
}

/// Whether a key is a shift key.
pub fn is_shift_key(key: &str) -> (r: bool)
    ensures
        r == shift_key(key@),
{
    same_text(key, "LShift") || same_text(key, "RShift")
}

/// Whether a shift key is among the keys.
pub open spec fn holds_shift(keys: Seq<Seq<char>>) -> bool {
    exists|i: int| 0 <= i < keys.len() && shift_key(keys[i])
}

/// Whether a shift key is among the keys.
pub fn has_shift(keys: &Vec<String>) -> (r: bool)
    ensures
        r == holds_shift(texts(keys@)),
{
    let mut i: usize = 0;
    while i < keys.len()
        invariant
            i <= keys.len(),
            forall|k: int| 0 <= k < i ==> !shift_key(texts(keys@)[k]),
        decreases keys.len() - i,
    {
        if is_shift_key(keys[i].as_str()) {
            assert(shift_key(texts(keys@)[i as int]));
            return true;
        }
        i += 1;
    }
    false
}

/// The sample holds exactly one key and it is a function key: the hotkey of
/// the host application, which is never recorded.
pub open spec fn lone_function_key(keys: Seq<Seq<char>>) -> bool {
    keys.len() == 1 && function_key(keys[0])
}

/// Whether the button at an index of the driver is held.
pub open spec fn held(buttons: Seq<bool>, index: int) -> bool {
    0 <= index < buttons.len() && buttons[index]
}

/// Whether the button at an index went down between two samples.
pub open spec fn went_down(now: Seq<bool>, last: Seq<bool>, index: int) -> bool {
    held(now, index) && !held(last, index)
}

/// The button whose press is seen between two samples: index 1 is the left
/// button, index 2 the right one, and indices 0, 3 and 4 stand for the
/// middle one. The left button goes before the right, the right before the
/// middle.
pub open spec fn clicked(now: Seq<bool>, last: Seq<bool>) -> Option<MouseButton> {
    if went_down(now, last, 1) {
        Some(MouseButton::Left)
    } else if went_down(now, last, 2) {
        Some(MouseButton::Right)
    } else if went_down(now, last, 0) || went_down(now, last, 3) || went_down(now, last, 4) {
        Some(MouseButton::Middle)
    } else {
        None
    }
}

fn is_held(buttons: &Vec<bool>, index: usize) -> (r: bool)
    ensures
        r == held(buttons@, index as int),
{
    index < buttons.len() && buttons[index]
}

fn pressed_now(now: &Vec<bool>, last: &Vec<bool>, index: usize) -> (r: bool)
    ensures
        r == went_down(now@, last@, index as int),
{
    is_held(now, index) && !is_held(last, index)
}

/// The button whose press is seen between two samples.
pub fn detect_click(now: &Vec<bool>, last: &Vec<bool>) -> (r: Option<MouseButton>)
    ensures
        r == clicked(now@, last@),
{
    if pressed_now(now, last, 1) {
        Some(MouseButton::Left)
    } else if pressed_now(now, last, 2) {
        Some(MouseButton::Right)
    } else if pressed_now(now, last, 0) || pressed_now(now, last, 3) || pressed_now(now, last, 4) {
        Some(MouseButton::Middle)
    } else {
        None
    }
}

/// Every key of the first list is in the second.
pub open spec fn all_within(keys: Seq<Seq<char>>, others: Seq<Seq<char>>) -> bool {
    forall|i: int| 0 <= i < keys.len() ==> others.contains(keys[i])
}

/// The held keys are the ones of the sample before.
pub open spec fn same_keys(keys: Seq<Seq<char>>, last: Seq<Seq<char>>) -> bool {
    keys.len() == last.len() && all_within(keys, last)
}

fn keys_unchanged(keys: &Vec<String>, last: &Vec<String>) -> (r: bool)
    ensures
        r == same_keys(texts(keys@), texts(last@)),
{
    if keys.len() != last.len() {
        return false;
    }
    let mut i: usize = 0;
    while i < keys.len()
        invariant
            i <= keys.len(),
            keys@.len() == last@.len(),
            forall|k: int| 0 <= k < i ==> texts(last@).contains(texts(keys@)[k]),
        decreases keys.len() - i,
    {
        if !contains_text(last, keys[i].as_str()) {
            assert(!texts(last@).contains(texts(keys@)[i as int]));
            return false;
        }
        i += 1;
    }
    true
}

/// The combination after the held keys were added to it: each key that it
/// does not hold yet goes to its end, in the order of the sample.
pub open spec fn merged(combo: Seq<Seq<char>>, keys: Seq<Seq<char>>) -> Seq<Seq<char>>
    decreases keys.len(),
{
    if keys.len() == 0 {
        combo
    } else {
        let front = merged(combo, keys.drop_last());
        if front.contains(keys.last()) {
            front
        } else {
            front.push(keys.last())
        }
    }
}

fn clone_texts(list: &Vec<String>) -> (r: Vec<String>)
    ensures
        texts(r@) == texts(list@),
{
    let mut out: Vec<String> = Vec::new();
    let mut i: usize = 0;
    assert(texts(out@) =~= texts(list@).take(0));
    while i < list.len()
        invariant
            i <= list.len(),
            texts(out@) == texts(list@).take(i as int),
        decreases list.len() - i,
    {
        let ghost before = texts(out@);
        out.push(list[i].clone());
        assert(texts(out@) =~= before.push(list@[i as int]@));
        assert(texts(out@) =~= texts(list@).take(i + 1));
        i += 1;
    }
    assert(texts(list@).take(i as int) =~= texts(list@));
    out
}

fn merge_keys(combo: &mut Vec<String>, keys: &Vec<String>)
    ensures
        texts(final(combo)@) == merged(texts(old(combo)@), texts(keys@)),
{
    let ghost start = texts(combo@);
    let mut i: usize = 0;
    assert(texts(keys@).take(0) =~= Seq::<Seq<char>>::empty());
    while i < keys.len()
        invariant
            i <= keys.len(),
            texts(combo@) == merged(start, texts(keys@).take(i as int)),
        decreases keys.len() - i,
    {
        assert(texts(keys@).take(i + 1).drop_last() =~= texts(keys@).take(i as int));
        assert(texts(keys@).take(i + 1).last() == keys@[i as int]@);
        if !contains_text(combo, keys[i].as_str()) {
            let ghost before = texts(combo@);
            combo.push(keys[i].clone());
            assert(texts(combo@) =~= before.push(keys@[i as int]@));
        }
        i += 1;
    }
    assert(texts(keys@).take(i as int) =~= texts(keys@));
}

/// The name under which a key of a combination is recorded: a letter key in
/// lower case unless a shift key is part of the combination, any other key
/// under its own name.
pub open spec fn recorded_name(name: Seq<char>, shifted: bool) -> Seq<char> {
    if !shifted && letter_key(name) {
        lowercased(name)
    } else {
        name
    }
}

/// The text of a combination: the recorded names of its keys, in order,
/// with a plus sign between them.
pub open spec fn combo_text(combo: Seq<Seq<char>>, shifted: bool) -> Seq<char>
    decreases combo.len(),
{
    if combo.len() == 0 {
        Seq::empty()
    } else if combo.len() == 1 {
        recorded_name(combo[0], shifted)
    } else {
        combo_text(combo.drop_last(), shifted) + "+"@ + recorded_name(combo.last(), shifted)
    }
}

/// The text under which a released key or combination is recorded. A
/// single key counts as unshifted even where it is a shift key itself.
pub open spec fn release_text(combo: Seq<Seq<char>>) -> Seq<char> {
    combo_text(combo, combo.len() > 1 && holds_shift(combo))
}

/// Writes the text of a combination.
pub fn describe_combo(combo: &Vec<String>, shifted: bool) -> (r: String)
    ensures
        r@ == combo_text(texts(combo@), shifted),
{
    let mut out = String::new();
    let mut i: usize = 0;
    assert(texts(combo@).take(0) =~= Seq::<Seq<char>>::empty());
    while i < combo.len()
        invariant
            i <= combo.len(),
            out@ == combo_text(texts(combo@).take(i as int), shifted),
        decreases combo.len() - i,
    {
        let ghost upto = texts(combo@).take(i + 1);
        assert(upto.drop_last() =~= texts(combo@).take(i as int));
        assert(upto.last() == combo@[i as int]@);
        assert(upto[0] == combo@[0]@);
        let ghost before = out@;
        if i > 0 {
            out.append("+");
        }
        let key = combo[i].as_str();
        if !shifted && is_letter_key(key) {
            let lower = lowercase(key);
            out.append(lower.as_str());
        } else {
            out.append(key);
        }
        assert(out@ =~= combo_text(upto, shifted)) by {
            if i == 0 {
                assert(before =~= Seq::<char>::empty());
            }
        }
        i += 1;
    }
    assert(texts(combo@).take(i as int) =~= texts(combo@));
    out
}

/// What the recorder remembers between samples.
#[derive(Debug, PartialEq)]
pub struct EventRecorder {
    /// The buttons of the sample before.
    pub last_buttons: Vec<bool>,
    /// The keys of the sample before.
    pub last_keys: Vec<String>,
    /// The keys of the combination that is being held.
    pub combo: Vec<String>,
    /// When the first key of the combination went down.
    pub combo_started_ms: u64,
    /// Set after a click until the cooldown has passed.
    pub cooldown: bool,
    pub last_click_ms: u64,
}

/// What a sample yields.
#[derive(Debug, PartialEq)]
pub struct Observation {
    /// The steps to append to the session, in order.
    pub steps: Vec<RecordedStep>,
    /// The sample held the hotkey alone and was passed over; the session is
    /// to pass over the next select-all.
    pub hotkey: bool,
}

/// Milliseconds from `since` to `now`, none where the clock had not reached
/// `since` yet.
pub open spec fn elapsed(now: u64, since: u64) -> int {
    if now >= since {
        now - since
    } else {
        0
    }
}

fn millis_between(now: u64, since: u64) -> (r: u64)
    ensures
        r == elapsed(now, since),
{
    if now >= since {
        now - since
    } else {
        0
    }
}

impl EventRecorder {
    /// Whether clicks are passed over at this time.
    pub open spec fn cooling(&self, now: u64) -> bool {
        self.cooldown && elapsed(now, self.last_click_ms) <= CLICK_COOLDOWN_MS
    }

    /// The click that a sample shows: none during the cooldown.
    pub open spec fn click_seen(&self, sample: InputSample) -> Option<MouseButton> {
        if self.cooling(sample.now_ms) {
            None
        } else {
            clicked(sample.buttons@, self.last_buttons@)
        }
    }

    /// Whether the cooldown is on after a sample: it was still on, or a
    /// click was seen.
    pub open spec fn cools_after(&self, sample: InputSample) -> bool {
        self.cooling(sample.now_ms) || self.click_seen(sample) is Some
    }

    /// The held keys changed and were not all released.
    pub open spec fn keys_changed(&self, sample: InputSample) -> bool {
        sample.keys@.len() > 0 && !same_keys(texts(sample.keys@), texts(self.last_keys@))
    }

    /// A key went down while none was held: a new combination starts.
    pub open spec fn combo_starts(&self, sample: InputSample) -> bool {
        self.keys_changed(sample) && self.last_keys@.len() == 0
    }

    /// The combination as it stands once the sample's keys are taken in.
    pub open spec fn combo_with(&self, sample: InputSample) -> Seq<Seq<char>> {
        if !self.keys_changed(sample) {
            texts(self.combo@)
        } else if self.last_keys@.len() == 0 {
            texts(sample.keys@)
        } else {
            merged(texts(self.combo@), texts(sample.keys@))
        }
    }

    /// A key of a held combination was let go: the combination has two to
    /// four keys, has been held for the dwell time, and fewer keys are held
    /// than it counts.
    pub open spec fn combo_breaks(&self, sample: InputSample) -> bool {
        &&& self.keys_changed(sample)
        &&& self.last_keys@.len() > 0
        &&& 2 <= self.combo_with(sample).len() <= 4
        &&& elapsed(sample.now_ms, self.combo_started_ms) >= COMBO_DWELL_MS
        &&& sample.keys@.len() < self.combo_with(sample).len()
    }

    /// Every key was let go while a key or a combination of up to four keys
    /// was being held.
    pub open spec fn combo_released(&self, sample: InputSample) -> bool {
        sample.keys@.len() == 0 && 1 <= self.combo@.len() <= 4
    }

    /// The key press that a sample yields, if any.
    pub open spec fn key_seen(&self, sample: InputSample) -> Option<Seq<char>> {
        if self.combo_breaks(sample) {
            Some(release_text(self.combo_with(sample)))
        } else if self.combo_released(sample) {
            Some(release_text(texts(self.combo@)))
        } else {
            None
        }
    }

    /// The steps that a sample yields: a move to the pointer and a click
    /// where a click is seen, then a key press where one is seen.
    pub open spec fn steps_seen(&self, sample: InputSample) -> Seq<RecordedModel> {
        let clicks = match self.click_seen(sample) {
            Some(button) => seq![
                RecordedModel::MouseMove { x: sample.x, y: sample.y },
                RecordedModel::MouseClick { button },
            ],
            None => Seq::empty(),
        };
        match self.key_seen(sample) {
            Some(key) => clicks.push(RecordedModel::KeyPress { key }),
            None => clicks,
        }
    }

    /// A recorder that has seen nothing.
    pub fn new() -> (r: Self)
        ensures
            r.last_buttons@.len() == 0,
            r.last_keys@.len() == 0,
            r.combo@.len() == 0,
            r.combo_started_ms == 0,
            !r.cooldown,
            r.last_click_ms == 0,
    {
        EventRecorder {
            last_buttons: Vec::new(),
            last_keys: Vec::new(),
            combo: Vec::new(),
            combo_started_ms: 0,
            cooldown: false,
            last_click_ms: 0,
        }
    }

    /// Takes in a sample and gives the steps it yields.
    ///
    /// A sample that holds a function key alone is the hotkey of the host
    /// application: it yields nothing and only the keys are remembered.
    /// Otherwise a button that went down since the sample before yields a
    /// move and a click and starts the cooldown, and the keys are followed
    /// until a combination breaks or is released.
    pub fn observe(&mut self, sample: InputSample) -> (r: Observation)
        ensures
            r.hotkey == lone_function_key(texts(sample.keys@)),
            final(self).last_keys == sample.keys,
            r.hotkey ==> {
                &&& r.steps@.len() == 0
                &&& final(self).last_buttons == old(self).last_buttons
                &&& final(self).combo == old(self).combo
                &&& final(self).combo_started_ms == old(self).combo_started_ms
                &&& final(self).cooldown == old(self).cooldown
                &&& final(self).last_click_ms == old(self).last_click_ms
            },
            !r.hotkey ==> {
                &&& recorded_models(r.steps@) == old(self).steps_seen(sample)
                &&& final(self).last_buttons == sample.buttons
                &&& final(self).cooldown == old(self).cools_after(sample)
                &&& final(self).last_click_ms == if old(self).click_seen(sample) is Some {
                    sample.now_ms
                } else {
                    old(self).last_click_ms
                }
                &&& texts(final(self).combo@) == if old(self).key_seen(sample) is Some
                    || sample.keys@.len() == 0 {
                    Seq::<Seq<char>>::empty()
                } else {
                    old(self).combo_with(sample)
                }
                &&& final(self).combo_started_ms == if old(self).combo_starts(sample) {
                    sample.now_ms
                } else {
                    old(self).combo_started_ms
                }
            },
    {
        let mut steps: Vec<RecordedStep> = Vec::new();
        assert(recorded_models(steps@) =~= Seq::<RecordedModel>::empty());
        let InputSample { x, y, buttons, keys, now_ms } = sample;
        if keys.len() == 1 && is_function_key(keys[0].as_str()) {
            assert(texts(keys@)[0] == keys@[0]@);
            self.last_keys = keys;
            return Observation { steps, hotkey: true };
        }
        assert(!lone_function_key(texts(keys@))) by {
            if keys@.len() == 1 {
                assert(texts(keys@)[0] == keys@[0]@);
            }
        }
        // The pointer.
        let cooling = self.cooldown && millis_between(now_ms, self.last_click_ms)
            <= CLICK_COOLDOWN_MS;
        self.cooldown = cooling;
        if !cooling {
            match detect_click(&buttons, &self.last_buttons) {
                Some(button) => {
                    steps.push(RecordedStep::MouseMove { x, y });
                    steps.push(RecordedStep::MouseClick { button });
                    assert(recorded_models(steps@) =~= seq![
                        RecordedModel::MouseMove { x, y },
                        RecordedModel::MouseClick { button },
                    ]);
                    self.cooldown = true;
                    self.last_click_ms = now_ms;
                },
                None => {},
            }
        }
        self.last_buttons = buttons;
        // The keyboard.
        let ghost clicks = recorded_models(steps@);
        if keys.len() > 0 {
            if !keys_unchanged(&keys, &self.last_keys) {
                if self.last_keys.len() == 0 {
                    self.combo = clone_texts(&keys);
                    self.combo_started_ms = now_ms;
                } else {
                    merge_keys(&mut self.combo, &keys);
                    if 2 <= self.combo.len() && self.combo.len() <= 4 && millis_between(
                        now_ms,
                        self.combo_started_ms,
                    ) >= COMBO_DWELL_MS && keys.len() < self.combo.len() {
                        let shifted = has_shift(&self.combo);
                        let key = describe_combo(&self.combo, shifted);
                        steps.push(RecordedStep::KeyPress { key });
                        assert(recorded_models(steps@) =~= clicks.push(
                            RecordedModel::KeyPress { key: key@ },
                        ));
                        self.combo.clear();
                        assert(texts(self.combo@) =~= Seq::<Seq<char>>::empty());
                    }
                }
            }
        } else {
            if 1 <= self.combo.len() && self.combo.len() <= 4 {
                let shifted = self.combo.len() > 1 && has_shift(&self.combo);
                let key = describe_combo(&self.combo, shifted);
                steps.push(RecordedStep::KeyPress { key });
                assert(recorded_models(steps@) =~= clicks.push(
                    RecordedModel::KeyPress { key: key@ },
                ));
            }
            self.combo.clear();
            assert(texts(self.combo@) =~= Seq::<Seq<char>>::empty());
        }
        self.last_keys = keys;
        Observation { steps, hotkey: false }
    }
}

/// Follows the three main buttons of the pointer and reports their
/// presses.
#[derive(Debug, Clone, Copy, PartialEq, Eq, Structural)]
pub struct MouseListener {
    pub left: bool,
    pub right: bool,
    pub middle: bool,
}

/// A click at a position, where the button went down.
pub open spec fn press(
    down: bool,
    was_down: bool,
    button: MouseButton,
    x: i32,
    y: i32,
) -> Seq<MouseEvent> {
    if down && !was_down {
        seq![MouseEvent::Click { button, x, y }]
    } else {
        Seq::empty()
    }
}

/// A listener that takes every button to be up.
pub fn start_mouse_listener() -> (r: MouseListener)
    ensures
        r == (MouseListener { left: false, right: false, middle: false }),
{
    MouseListener { left: false, right: false, middle: false }
}

impl MouseListener {
    /// Takes in the buttons of a sample, of which index 1 is the left
    /// button, index 2 the right and index 3 the middle one, and gives a
    /// click for each of them that went down, in that order.
    pub fn observe(&mut self, buttons: &Vec<bool>, x: i32, y: i32) -> (r: Vec<MouseEvent>)
        requires
            buttons@.len() >= 4,
        ensures
            *final(self) == (MouseListener {
                left: buttons@[1],
                right: buttons@[2],
                middle: buttons@[3],
            }),
            r@ == press(buttons@[1], old(self).left, MouseButton::Left, x, y) + press(
                buttons@[2],
                old(self).right,
                MouseButton::Right,
                x,
                y,
            ) + press(buttons@[3], old(self).middle, MouseButton::Middle, x, y),
    {
        let mut out: Vec<MouseEvent> = Vec::new();
        if buttons[1] && !self.left {
            out.push(MouseEvent::Click { button: MouseButton::Left, x, y });
        }
        if buttons[2] && !self.right {
            out.push(MouseEvent::Click { button: MouseButton::Right, x, y });
        }
        if buttons[3] && !self.middle {
            out.push(MouseEvent::Click { button: MouseButton::Middle, x, y });
        }
        assert(out@ =~= press(buttons@[1], old(self).left, MouseButton::Left, x, y) + press(
            buttons@[2],
            old(self).right,
            MouseButton::Right,
            x,
            y,
        ) + press(buttons@[3], old(self).middle, MouseButton::Middle, x, y));
        self.left = buttons[1];
        self.right = buttons[2];
        self.middle = buttons[3];
        out
    }
}

/// Follows the keyboard and reports the keys that go down.
#[derive(Debug, PartialEq)]
pub struct KeyboardListener {
    pub last_keys: Vec<String>,
}

/// The keys of a sample that were not held in the sample before, in order.
pub open spec fn new_keys(keys: Seq<Seq<char>>, last: Seq<Seq<char>>) -> Seq<Seq<char>>
    decreases keys.len(),
{
    if keys.len() == 0 {
        Seq::empty()
    } else {
        let front = new_keys(keys.drop_last(), last);
        if last.contains(keys.last()) {
            front
        } else {
            front.push(keys.last())
        }
    }
}

/// The keys that a list of keyboard events names, in order.
pub open spec fn pressed_keys(events: Seq<KeyboardEvent>) -> Seq<Seq<char>> {
    events.map_values(
        |e: KeyboardEvent|
            match e {
                KeyboardEvent::KeyPress { key } => key@,
            },
    )
}

/// A listener that takes every key to be up.
pub fn start_keyboard_listener() -> (r: KeyboardListener)
    ensures
        r.last_keys@.len() == 0,
{
    KeyboardListener { last_keys: Vec::new() }
}

impl KeyboardListener {
    /// Takes in the keys of a sample and gives a key press for each that
    /// was not held in the sample before.
    pub fn observe(&mut self, keys: Vec<String>) -> (r: Vec<KeyboardEvent>)
        ensures
            final(self).last_keys == keys,
            pressed_keys(r@) == new_keys(texts(keys@), texts(old(self).last_keys@)),
    {
        let mut out: Vec<KeyboardEvent> = Vec::new();
        let mut i: usize = 0;
        assert(pressed_keys(out@) =~= Seq::<Seq<char>>::empty());
        assert(texts(keys@).take(0) =~= Seq::<Seq<char>>::empty());
        while i < keys.len()
            invariant
                i <= keys.len(),
                pressed_keys(out@) == new_keys(
                    texts(keys@).take(i as int),
                    texts(self.last_keys@),
                ),
            decreases keys.len() - i,
        {
            assert(texts(keys@).take(i + 1).drop_last() =~= texts(keys@).take(i as int));
            assert(texts(keys@).take(i + 1).last() == keys@[i as int]@);
            if !contains_text(&self.last_keys, keys[i].as_str()) {
                let ghost before = pressed_keys(out@);
                out.push(KeyboardEvent::KeyPress { key: keys[i].clone() });
                assert(pressed_keys(out@) =~= before.push(keys@[i as int]@));
            }
            i += 1;
        }
        assert(texts(keys@).take(i as int) =~= texts(keys@));
        self.last_keys = keys;
        out
    }
}

/// The tracker of the position telemetry in its first state.
pub fn start_mouse_position_tracking() -> (r: PositionTracker)
    ensures
        r.last == (MousePosition { x: 0, y: 0 }),
{
    PositionTracker::new()
}

/// Follows the pointer for the position telemetry.
#[derive(Debug, PartialEq)]
pub struct PositionTracker {
    pub last: MousePosition,
}

impl PositionTracker {
    /// A tracker that takes the pointer to rest at the origin.
    pub fn new() -> (r: Self)
        ensures
            r.last == (MousePosition { x: 0, y: 0 }),
    {
        PositionTracker { last: MousePosition { x: 0, y: 0 } }
    }

    /// Takes in a position of the pointer and gives the event to send to
    /// every client: one exactly when the pointer has moved.
    pub fn observe(&mut self, x: i32, y: i32) -> (r: Option<WebSocketMessage>)
        ensures
            final(self).last == (MousePosition { x, y }),
            r == if old(self).last == (MousePosition { x, y }) {
                None
            } else {
                Some(WebSocketMessage::MousePosition(MousePosition { x, y }))
            },
    {
        if self.last.x == x && self.last.y == y {
            None
        } else {
            self.last = MousePosition { x, y };
            Some(WebSocketMessage::MousePosition(MousePosition { x, y }))
        }
    }
}

} // verus!
