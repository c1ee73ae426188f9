//! The decoder: modifier tracking, the line buffer, and barcode extraction.
use vstd::prelude::*;

use crate::error::Error;
use crate::keys::{
    digit_keys, digit_row, key_char, key_to_str, letter_keys, lowercase_letters, lemma_digit_key,
    lemma_letter_key, shifted_digit_row, uppercase_letters, EV_KEY, KEY_CAPSLOCK, KEY_ENTER,
    KEY_LEFTSHIFT, KEY_RIGHTSHIFT, TERMINATOR,
};

verus! {

/// A key going down (`pressed`) or coming up.
#[derive(Clone, Copy, Debug, PartialEq, Eq, Structural)]
pub struct KeyEvent {
    pub key: u16,
    pub pressed: bool,
}

impl KeyEvent {
    /// The key event that a raw input event stands for, or `None` where the
    /// event is not a key event. Value 1 is a press; every other value
    /// (release 0, autorepeat 2) counts as not pressed.
    pub fn from_input(event_type: u16, code: u16, value: i32) -> (r: Option<KeyEvent>)
        ensures
            r == (if event_type == EV_KEY {
                Some(KeyEvent { key: code, pressed: value == 1 })
            } else {
                None
            }),
    {
        if event_type == EV_KEY {
            Some(KeyEvent { key: code, pressed: value == 1 })
        } else {
            None
        }
    }
}

/// Whether a key only changes the modifier state.
pub open spec fn is_modifier(key: u16) -> bool {
    key == KEY_LEFTSHIFT || key == KEY_RIGHTSHIFT || key == KEY_CAPSLOCK
}

/// Which modifier keys are down. Caps lock counts while its key is down; it
/// is not latched as a toggle.
#[derive(Clone, Copy, Debug, PartialEq, Eq, Structural)]
pub struct ModifierState {
    pub left_shift: bool,
    pub right_shift: bool,
    pub caps_lock: bool,
}

impl ModifierState {
    /// No modifier down.
    pub open spec fn released() -> ModifierState {
        ModifierState { left_shift: false, right_shift: false, caps_lock: false }
    }

    /// Whether the next key types its shifted character.
    pub open spec fn spec_capital(&self) -> bool {
        self.left_shift || self.right_shift || self.caps_lock
    }

    /// The state after `e`: a modifier key takes the event's pressed value,
    /// every other key leaves the state as it is.
    pub open spec fn spec_observe(self, e: KeyEvent) -> ModifierState {
        if e.key == KEY_LEFTSHIFT {
            ModifierState { left_shift: e.pressed, ..self }
        } else if e.key == KEY_RIGHTSHIFT {
            ModifierState { right_shift: e.pressed, ..self }
        } else if e.key == KEY_CAPSLOCK {
            ModifierState { caps_lock: e.pressed, ..self }
        } else {
            self
        }
    }

    /// No modifier down.
    pub fn new() -> (r: ModifierState)
        ensures
            r == ModifierState::released(),
    {
        ModifierState { left_shift: false, right_shift: false, caps_lock: false }
    }

    /// Whether either shift or caps lock is down.
    #[verifier::when_used_as_spec(spec_capital)]
    pub fn capital(&self) -> (r: bool)
        ensures
            r == self.spec_capital(),
    {
        self.left_shift || self.right_shift || self.caps_lock
    }

    /// Takes `e` into account.
    pub fn observe(&mut self, e: KeyEvent)
        ensures
            *final(self) == old(self).spec_observe(e),
    {
        if e.key == KEY_LEFTSHIFT {
            self.left_shift = e.pressed;
        } else if e.key == KEY_RIGHTSHIFT {
            self.right_shift = e.pressed;
        } else if e.key == KEY_CAPSLOCK {
            self.caps_lock = e.pressed;
        }
    }
}

/// The decoder as a value: its modifier state and the characters buffered
/// since the last barcode.
pub struct DecoderState {
    pub modifiers: ModifierState,
    pub buffer: Seq<char>,
}

impl DecoderState {
    /// No modifier down, nothing buffered.
    pub open spec fn initial() -> DecoderState {
        DecoderState { modifiers: ModifierState::released(), buffer: Seq::empty() }
    }
}

/// The state after one event. A modifier key updates the modifiers; a press
/// of any other key appends the character it types, if any; a release of any
/// other key changes nothing.
pub open spec fn step(s: DecoderState, e: KeyEvent) -> DecoderState {
    if is_modifier(e.key) {
        DecoderState { modifiers: s.modifiers.spec_observe(e), buffer: s.buffer }
    } else if e.pressed {
        match key_char(e.key, s.modifiers.spec_capital()) {
            Some(c) => DecoderState { modifiers: s.modifiers, buffer: s.buffer.push(c) },
            None => s,
        }
    } else {
        s
    }
}

/// The state after a batch of events, taken in order.
pub open spec fn feed(s: DecoderState, events: Seq<KeyEvent>) -> DecoderState
    decreases events.len(),
{
    if events.len() == 0 {
        s
    } else {
        step(feed(s, events.drop_last()), events.last())
    }
}

/// Whether `i` is the position of the first terminator in `buf`.
pub open spec fn is_first_terminator(buf: Seq<char>, i: int) -> bool {
    &&& 0 <= i < buf.len()
    &&& buf[i] == TERMINATOR
    &&& forall|j: int| 0 <= j < i ==> buf[j] != TERMINATOR
}

/// The barcode that `s` holds, with the state that remains once it is taken:
/// the characters before the first terminator, and the buffer after that
/// terminator. `None`, and `s` unchanged, where the buffer holds no terminator.
pub open spec fn extract(s: DecoderState) -> (Option<Seq<char>>, DecoderState) {
    if exists|i: int| is_first_terminator(s.buffer, i) {
        let i = choose|i: int| is_first_terminator(s.buffer, i);
        (
            Some(s.buffer.subrange(0, i)),
            DecoderState { modifiers: s.modifiers, buffer: s.buffer.subrange(i + 1, s.buffer.len() as int) },
        )
    } else {
        (None, s)
    }
}

/// A press of `key`.
pub open spec fn press(key: u16) -> KeyEvent {
    KeyEvent { key, pressed: true }
}

/// A release of `key`.
pub open spec fn release(key: u16) -> KeyEvent {
    KeyEvent { key, pressed: false }
}

/// A press of each key in turn.
pub open spec fn presses(keys: Seq<u16>) -> Seq<KeyEvent> {
    keys.map_values(|k: u16| press(k))
}

/// Relies on `String::push`: it appends one character to the string.
#[verifier::external_body]
fn push_char(s: &mut String, c: char)
    ensures
        final(s)@ == old(s)@.push(c),
{
    s.push(c)
}

/// A key event decoder. It turns the events of a keyboard-emulating scanner,
/// handed to it batch by batch, into barcodes.
pub struct Decoder {
    modifiers: ModifierState,
    buffer: Vec<char>,
}

impl View for Decoder {
    type V = DecoderState;

    closed spec fn view(&self) -> DecoderState {
        DecoderState { modifiers: self.modifiers, buffer: self.buffer@ }
    }
}

impl Decoder {
    /// A decoder with no modifier down and an empty buffer.
    pub fn new() -> (r: Decoder)
        ensures
            r@ == DecoderState::initial(),
    {
        Decoder { modifiers: ModifierState::new(), buffer: Vec::new() }
    }

    /// Takes one event into account.
    pub fn process_event(&mut self, e: KeyEvent)
        ensures
            final(self)@ == step(old(self)@, e),
    {
        if e.key == KEY_LEFTSHIFT || e.key == KEY_RIGHTSHIFT || e.key == KEY_CAPSLOCK {
            self.modifiers.observe(e);
        } else if e.pressed {
            if let Some(c) = key_to_str(e.key, self.modifiers.capital()) {
                self.buffer.push(c);
            }
        }
    }

    /// Takes a batch of events into account, in order.
    pub fn process_batch(&mut self, events: &[KeyEvent])
        ensures
            final(self)@ == feed(old(self)@, events@),
    {
        let n = events.len();
        let mut i: usize = 0;
        while i < n
            invariant
                n == events@.len(),
                0 <= i <= n,
                self@ == feed(old(self)@, events@.subrange(0, i as int)),
            decreases n - i,
        {
            proof {
                let next = events@.subrange(0, i + 1);
                assert(next.drop_last() =~= events@.subrange(0, i as int));
                assert(next.last() == events@[i as int]);
            }
            self.process_event(events[i]);
            i = i + 1;
        }
        proof {
            assert(events@.subrange(0, n as int) =~= events@);
        }
    }

    /// Takes the next barcode out of the buffer: the characters before the
    /// first terminator, which is dropped with them. `None`, with nothing
    /// changed, where the buffer holds no terminator.
    pub fn take_barcode(&mut self) -> (r: Option<String>)
        ensures
            r.deep_view() == extract(old(self)@).0,
            final(self)@ == extract(old(self)@).1,
    {
        let n = self.buffer.len();
        let mut i: usize = 0;
        while i < n
            invariant
                n == self.buffer@.len(),
                0 <= i <= n,
                self@ == old(self)@,
                forall|j: int| 0 <= j < i ==> self.buffer@[j] != TERMINATOR,
            decreases n - i,
        {
            if self.buffer[i] == TERMINATOR {
                let ghost buf = self.buffer@;
                let rest = self.buffer.split_off(i + 1);
                let mut barcode = String::new();
                let mut k: usize = 0;
                while k < i
                    invariant
                        0 <= k <= i,
                        i < n,
                        buf.len() == n,
                        self.buffer@ == buf.subrange(0, i + 1),
                        barcode@ == buf.subrange(0, k as int),
                    decreases i - k,
                {
                    push_char(&mut barcode, self.buffer[k]);
                    k = k + 1;
                    assert(barcode@ =~= buf.subrange(0, k as int));
                }
                self.buffer = rest;
                proof {
                    assert(is_first_terminator(buf, i as int));
                    let k = choose|k: int| is_first_terminator(buf, k);
                    assert(k == i) by {
                        if k < i {
                            assert(buf[k] != TERMINATOR);
                        } else if k > i {
                            assert(buf[i as int] != TERMINATOR);
                        }
                    }
                    assert(barcode@ =~= buf.subrange(0, i as int));
                    assert(self.buffer@ =~= buf.subrange(i + 1, n as int));
                    assert(old(self)@.buffer == buf);
                    assert(Some(barcode).deep_view() == Some(barcode@));
                }
                return Some(barcode);
            }
            i = i + 1;
        }
        None
    }

    /// The decision that follows a fetch of events from the device. A failed
    /// fetch is handed back with the decoder unchanged. A fetched batch is
    /// taken into account, and then the next barcode, if the buffer now holds
    /// one, is taken out; `Ok(None)` asks for another batch.
    pub fn on_fetched(&mut self, fetched: Result<Vec<KeyEvent>, Error>) -> (r: Result<Option<String>, Error>)
        ensures
            match fetched {
                Ok(events) => {
                    &&& r is Ok
                    &&& r->Ok_0.deep_view() == extract(feed(old(self)@, events@)).0
                    &&& final(self)@ == extract(feed(old(self)@, events@)).1
                },
                Err(e) => {
                    &&& r == Err::<Option<String>, Error>(e)
                    &&& final(self)@ == old(self)@
                },
            },
    {
        match fetched {
            Ok(events) => {
                self.process_batch(events.as_slice());
                Ok(self.take_barcode())
            },
            Err(e) => Err(e),
        }
    }
}

/// A release never adds a character to the buffer, whatever the key.
pub proof fn lemma_release_types_nothing(s: DecoderState, key: u16)
    ensures
        step(s, release(key)).buffer == s.buffer,
{
}

/// A batch of releases leaves the buffer as it was.
pub proof fn lemma_releases_type_nothing(s: DecoderState, events: Seq<KeyEvent>)
    requires
        forall|j: int| 0 <= j < events.len() ==> !events[j].pressed,
    ensures
        feed(s, events).buffer == s.buffer,
    decreases events.len(),
{
    if events.len() > 0 {
        lemma_releases_type_nothing(s, events.drop_last());
    }
}

/// A batch of shift and caps lock events leaves the buffer as it was; so a
/// decoder that held no barcode before it still holds none after it.
pub proof fn lemma_modifier_batch_waits(s: DecoderState, events: Seq<KeyEvent>)
    requires
        forall|j: int| 0 <= j < events.len() ==> is_modifier(#[trigger] events[j].key),
    ensures
        feed(s, events).buffer == s.buffer,
        (extract(s).0 is None) ==> (extract(feed(s, events)).0 is None),
    decreases events.len(),
{
    if events.len() > 0 {
        lemma_modifier_batch_waits(s, events.drop_last());
        assert(is_modifier(events[events.len() - 1].key));
    }
}

/// A press of enter on a buffer that holds no terminator yet completes the
/// barcode: the whole buffer comes out, and the buffer is left empty.
pub proof fn lemma_enter_completes(s: DecoderState)
    requires
        (extract(s).0 is None),
    ensures
        extract(step(s, press(KEY_ENTER))).0 == Some(s.buffer),
        extract(step(s, press(KEY_ENTER))).1
            == (DecoderState { modifiers: s.modifiers, buffer: Seq::<char>::empty() }),
{
    let t = step(s, press(KEY_ENTER));
    let n = s.buffer.len() as int;
    assert(t.buffer == s.buffer.push(TERMINATOR));
    assert forall|j: int| 0 <= j < n implies s.buffer[j] != TERMINATOR by {
        if s.buffer[j] == TERMINATOR {
            lemma_first_terminator_exists(s.buffer, j);
        }
    }
    assert(is_first_terminator(t.buffer, n));
    let i = choose|i: int| is_first_terminator(t.buffer, i);
    assert(i == n) by {
        if i < n {
            assert(t.buffer[i] == s.buffer[i]);
        }
    }
    assert(t.buffer.subrange(0, n) =~= s.buffer);
    assert(t.buffer.subrange(n + 1, t.buffer.len() as int) =~= Seq::<char>::empty());
}

/// Where a sequence holds a terminator, it holds a first one.
proof fn lemma_first_terminator_exists(buf: Seq<char>, k: int)
    requires
        0 <= k < buf.len(),
        buf[k] == TERMINATOR,
    ensures
        exists|i: int| is_first_terminator(buf, i),
    decreases k,
{
    if exists|m: int| 0 <= m < k && buf[m] == TERMINATOR {
        let m = choose|m: int| 0 <= m < k && buf[m] == TERMINATOR;
        lemma_first_terminator_exists(buf, m);
    } else {
        assert(is_first_terminator(buf, k));
    }
}

/// Presses of keys that type a character under the current modifiers, and
/// that are no modifiers themselves, append those characters in order.
pub proof fn lemma_presses_type(s: DecoderState, keys: Seq<u16>)
    requires
        forall|j: int| 0 <= j < keys.len() ==> !is_modifier(#[trigger] keys[j]),
        forall|j: int| 0 <= j < keys.len() ==> (key_char(#[trigger] keys[j], s.modifiers.spec_capital()) is Some),
    ensures
        feed(s, presses(keys)) == (DecoderState {
            modifiers: s.modifiers,
            buffer: s.buffer + keys.map_values(|k: u16| key_char(k, s.modifiers.spec_capital())->Some_0),
        }),
    decreases keys.len(),
{
    let cap = s.modifiers.spec_capital();
    let typed = keys.map_values(|k: u16| key_char(k, cap)->Some_0);
    if keys.len() == 0 {
        assert(s.buffer + typed =~= s.buffer);
    } else {
        let front = keys.drop_last();
        assert(presses(keys).drop_last() =~= presses(front));
        lemma_presses_type(s, front);
        let last = keys[keys.len() - 1];
        assert(!is_modifier(last));
        assert(key_char(last, cap) is Some);
        assert(s.buffer + typed =~= (s.buffer + front.map_values(|k: u16| key_char(k, cap)->Some_0)).push(
            key_char(last, cap)->Some_0,
        ));
    }
}

/// Presses of digit keys, given by their positions in the top row, type the
/// digits of those positions, or with shift or caps lock down the symbols
/// above them.
pub proof fn lemma_digit_presses(s: DecoderState, positions: Seq<int>)
    requires
        forall|j: int| 0 <= j < positions.len() ==> 0 <= #[trigger] positions[j] < 10,
    ensures
        feed(s, presses(positions.map_values(|p: int| digit_keys()[p]))).buffer == s.buffer
            + positions.map_values(
            |p: int|
                if s.modifiers.spec_capital() {
                    shifted_digit_row()[p]
                } else {
                    digit_row()[p]
                },
        ),
{
    let cap = s.modifiers.spec_capital();
    let keys = positions.map_values(|p: int| digit_keys()[p]);
    assert forall|j: int| 0 <= j < keys.len() implies !is_modifier(#[trigger] keys[j]) && (key_char(
        keys[j],
        cap,
    ) is Some) by {
        lemma_digit_key(positions[j]);
        assert(0 <= positions[j] < 10);
    }
    lemma_presses_type(s, keys);
    let typed = keys.map_values(|k: u16| key_char(k, cap)->Some_0);
    let expected = positions.map_values(
        |p: int|
            if cap {
                shifted_digit_row()[p]
            } else {
                digit_row()[p]
            },
    );
    assert forall|j: int| 0 <= j < typed.len() implies typed[j] == expected[j] by {
        lemma_digit_key(positions[j]);
    }
    assert(typed =~= expected);
}

/// With no modifier down, a letter key types the lowercase letter; with caps
/// lock down, and no shift, it types the uppercase letter, as with shift.
pub proof fn lemma_letter_case(s: DecoderState, i: int)
    requires
        0 <= i < 26,
    ensures
        !s.modifiers.spec_capital() ==> step(s, press(letter_keys()[i])).buffer
            == s.buffer.push(lowercase_letters()[i]),
        s.modifiers.caps_lock ==> step(s, press(letter_keys()[i])).buffer
            == s.buffer.push(uppercase_letters()[i]),
        (s.modifiers.left_shift || s.modifiers.right_shift) ==> step(
            s,
            press(letter_keys()[i]),
        ).buffer == s.buffer.push(uppercase_letters()[i]),
{
    lemma_letter_key(i);
    assert(!is_modifier(letter_keys()[i]));
}

} // verus!
