//! Keyboard input: decoding scancodes with a US 104-key layout, and a
//! ring of 256 bytes holding up to 255 keys in arrival order.

use vstd::prelude::*;
use pc_keyboard::{DecodedKey, HandleControl, KeyEvent, Keyboard, ScancodeSet1};
use pc_keyboard::layouts::Us104Key;

verus! {

#[verifier::external_type_specification]
#[verifier::external_body]
pub struct ExKeyEvent(KeyEvent);

#[verifier::external_type_specification]
#[verifier::external_body]
pub struct ExDecodedKey(DecodedKey);

#[verifier::external_type_specification]
#[verifier::external_body]
pub struct ExKeyboardError(pc_keyboard::Error);

/// A PS/2 keyboard of `pc_keyboard` with scancode set 1 and the US 104-key
/// layout. Its state (the bytes of a key seen so far, the modifiers held)
/// is hidden from verification.
#[verifier::external_body]
pub struct Ps2Keyboard {
    keyboard: Keyboard<Us104Key, ScancodeSet1>,
}

/// The bytes fed to the keyboard with `Keyboard::add_byte` since it was
/// made, oldest first.
pub uninterp spec fn bytes_fed(k: Ps2Keyboard) -> Seq<u8>;

/// How many key events the keyboard has been given with
/// `Keyboard::process_keyevent` since it was made.
pub uninterp spec fn events_processed(k: Ps2Keyboard) -> nat;

/// What `Keyboard::add_byte` of scancode set 1 answers to the last of the
/// bytes `fed` to a keyboard fresh from `Keyboard::new`. Scancode set 1 is
/// a state machine over the bytes fed, started in its initial state.
pub uninterp spec fn set1_answer(fed: Seq<u8>) -> Result<Option<KeyEvent>, pc_keyboard::Error>;

/// What `Keyboard::process_keyevent` of the US 104-key layout, with Ctrl
/// passed through as its own key, answers to the key event that the last
/// of the bytes `fed` completed, on a keyboard fresh from `Keyboard::new`
/// that was fed those bytes and given each earlier completed event as it
/// was completed. The modifiers it decodes under are a state machine over
/// the events it was given, started with none held.
pub uninterp spec fn us104_decoded(fed: Seq<u8>) -> Option<DecodedKey>;

/// How many of the prefixes of `fed` end with a byte that completes a key
/// event.
pub open spec fn events_completed(fed: Seq<u8>) -> nat
    decreases fed.len(),
{
    if fed.len() == 0 {
        0
    } else {
        events_completed(fed.drop_last()) + if set1_answer(fed) matches Ok(Some(_)) {
            1nat
        } else {
            0nat
        }
    }
}

/// Calls `Keyboard::new` with scancode set 1, the US 104-key layout and
/// Ctrl passed through as its own key: no byte has been fed and no event
/// given.
#[verifier::external_body]
fn new_ps2_keyboard() -> (ret: Ps2Keyboard)
    ensures
        bytes_fed(ret) == Seq::<u8>::empty(),
        events_processed(ret) == 0,
{
    Ps2Keyboard { keyboard: Keyboard::new(ScancodeSet1::new(), Us104Key, HandleControl::Ignore) }
}

/// Calls `Keyboard::add_byte`: feeds one scancode byte, and answers with a
/// key event once a key's bytes are complete. The answer is that of
/// scancode set 1's state machine, which only the bytes fed move.
#[verifier::external_body]
fn keyboard_add_byte(k: &mut Ps2Keyboard, byte: u8) -> (ret: Result<Option<KeyEvent>, pc_keyboard::Error>)
    ensures
        bytes_fed(*final(k)) == bytes_fed(*old(k)).push(byte),
        events_processed(*final(k)) == events_processed(*old(k)),
        ret == set1_answer(bytes_fed(*final(k))),
{
    k.keyboard.add_byte(byte)
}

/// Calls `Keyboard::process_keyevent` on the event that the last byte fed
/// completed, when every earlier completed event was given as it was
/// completed: it answers the key that event decodes to under the
/// modifiers those events left held, and updates the modifiers; the bytes
/// fed are untouched.
#[verifier::external_body]
fn keyboard_process_keyevent(k: &mut Ps2Keyboard, ev: KeyEvent) -> (ret: Option<DecodedKey>)
    requires
        set1_answer(bytes_fed(*old(k))) == Ok::<Option<KeyEvent>, pc_keyboard::Error>(Some(ev)),
        events_processed(*old(k)) + 1 == events_completed(bytes_fed(*old(k))),
    ensures
        bytes_fed(*final(k)) == bytes_fed(*old(k)),
        events_processed(*final(k)) == events_processed(*old(k)) + 1,
        ret == us104_decoded(bytes_fed(*old(k))),
{
    k.keyboard.process_keyevent(ev)
}

/// The key event that a scancode completed, if it completed one; a
/// decoding error gives none.
pub fn completed_event(r: Result<Option<KeyEvent>, pc_keyboard::Error>) -> (ret: Option<KeyEvent>)
    ensures
        ret == match r {
            Ok(Some(ev)) => Some(ev),
            _ => None,
        },
{
    match r {
        Ok(Some(ev)) => Some(ev),
        _ => None,
    }
}

/// Turns scancodes into keys.
pub struct ScancodeDecoder {
    keyboard: Ps2Keyboard,
}

impl ScancodeDecoder {
    /// The scancodes fed so far, oldest first.
    pub closed spec fn fed(&self) -> Seq<u8> {
        bytes_fed(self.keyboard)
    }

    /// Every key event the scancodes completed has been decoded, as it was
    /// completed.
    pub closed spec fn wf(&self) -> bool {
        events_processed(self.keyboard) == events_completed(bytes_fed(self.keyboard))
    }

    /// A decoder with no bytes fed and no modifier held.
    pub fn new() -> (ret: Self)
        ensures
            ret.wf(),
            ret.fed() == Seq::<u8>::empty(),
    {
        ScancodeDecoder { keyboard: new_ps2_keyboard() }
    }
}

/// Feeds `scancode` to the decoder. When it completes a key event, the
/// answer is the key that event decodes to under the modifiers the earlier
/// events left held; a scancode that completes no event, or that the
/// decoder refuses, gives none.
pub fn process_scancode(decoder: &mut ScancodeDecoder, scancode: u8) -> (ret: Option<DecodedKey>)
    requires
        old(decoder).wf(),
    ensures
        final(decoder).wf(),
        final(decoder).fed() == old(decoder).fed().push(scancode),
        set1_answer(final(decoder).fed()) matches Ok(Some(_)) ==> ret == us104_decoded(
            final(decoder).fed(),
        ),
        !(set1_answer(final(decoder).fed()) matches Ok(Some(_))) ==> ret is None,
{
    let ghost fed = bytes_fed(decoder.keyboard).push(scancode);
    let r = keyboard_add_byte(&mut decoder.keyboard, scancode);
    assert(fed.drop_last() =~= old(decoder).fed());
    match completed_event(r) {
        Some(key_event) => keyboard_process_keyevent(&mut decoder.keyboard, key_event),
        None => None,
    }
}

/// Keys waiting to be read, oldest first.
pub struct KeyboardManager {
    buffer: [u8; 256],
    read_pos: usize,
    write_pos: usize,
}

/// The most keys the buffer holds: one slot stays free to tell a full
/// ring from an empty one.
pub const KEYBOARD_CAPACITY: usize = 255;

impl KeyboardManager {
    /// Both positions lie in the ring.
    pub closed spec fn wf(&self) -> bool {
        self.read_pos < 256 && self.write_pos < 256
    }

    /// The keys waiting, oldest first.
    pub closed spec fn keys(&self) -> Seq<u8> {
        let len = ((self.write_pos + 256 - self.read_pos) % 256) as nat;
        Seq::new(len, |i: int| self.buffer@[(self.read_pos + i) % 256])
    }

    pub fn new() -> (ret: Self)
        ensures
            ret.wf(),
            ret.keys() == Seq::<u8>::empty(),
    {
        let ret = KeyboardManager { buffer: [0; 256], read_pos: 0, write_pos: 0 };
        assert(ret.keys() =~= Seq::<u8>::empty());
        ret
    }

    /// Queues `key`; when 255 keys wait it is dropped.
    pub fn add_key(&mut self, key: u8)
        requires
            old(self).wf(),
        ensures
            final(self).wf(),
            final(self).keys() == key_added(old(self).keys(), key),
            old(self).keys().len() < KEYBOARD_CAPACITY ==> final(self).keys() == old(self).keys().push(key),
            old(self).keys().len() >= KEYBOARD_CAPACITY ==> final(self).keys() == old(self).keys(),
    {
        let next_write = (self.write_pos + 1) % 256;
        if next_write != self.read_pos {
            let ghost old_keys = self.keys();
            self.buffer[self.write_pos] = key;
            self.write_pos = next_write;
            assert(self.keys() =~= old_keys.push(key));
        }
    }

    /// Takes the oldest key, if any.
    pub fn read_key(&mut self) -> (ret: Option<u8>)
        requires
            old(self).wf(),
        ensures
            final(self).wf(),
            old(self).keys().len() == 0 ==> ret is None && final(self).keys() == old(self).keys(),
            old(self).keys().len() > 0 ==> ret == Some(old(self).keys()[0]) && final(self).keys()
                == old(self).keys().drop_first(),
    {
        if self.read_pos == self.write_pos {
            None
        } else {
            let ghost old_keys = self.keys();
            let key = self.buffer[self.read_pos];
            self.read_pos = (self.read_pos + 1) % 256;
            assert(self.keys() =~= old_keys.drop_first());
            Some(key)
        }
    }

    /// Whether a key waits.
    pub fn has_key(&self) -> (ret: bool)
        requires
            self.wf(),
        ensures
            ret == (self.keys().len() > 0),
    {
        self.read_pos != self.write_pos
    }
}

/// Keys come out in the order they went in: with fewer than 255 keys
/// waiting, a key queued behind them is read after all of them, so the
/// next read gives the oldest waiting key, or the new one when none
/// waited, and leaves the others in order with the new key last.
pub proof fn lemma_keys_fifo(waiting: Seq<u8>, key: u8)
    requires
        waiting.len() < KEYBOARD_CAPACITY,
    ensures
        waiting.push(key).len() > 0,
        waiting.push(key)[0] == (if waiting.len() == 0 { key } else { waiting[0] }),
        waiting.push(key).drop_first() == (if waiting.len() == 0 {
            Seq::<u8>::empty()
        } else {
            waiting.drop_first().push(key)
        }),
{
    if waiting.len() == 0 {
        assert(waiting.push(key).drop_first() =~= Seq::<u8>::empty());
    } else {
        assert(waiting.push(key).drop_first() =~= waiting.drop_first().push(key));
    }
}

/// The keys waiting after `key` arrives: it joins the back, unless 255
/// keys already wait.
pub open spec fn key_added(waiting: Seq<u8>, key: u8) -> Seq<u8> {
    if waiting.len() < KEYBOARD_CAPACITY { waiting.push(key) } else { waiting }
}

/// The keys waiting after the keys `arrived` come, in order.
pub open spec fn keys_added(waiting: Seq<u8>, arrived: Seq<u8>) -> Seq<u8>
    decreases arrived.len(),
{
    if arrived.len() == 0 {
        waiting
    } else {
        key_added(keys_added(waiting, arrived.drop_last()), arrived.last())
    }
}

/// However many keys arrive, the buffer keeps the oldest 255 of the
/// waiting keys and the arrivals, in arrival order, and drops the rest.
pub proof fn lemma_keys_added(waiting: Seq<u8>, arrived: Seq<u8>)
    requires
        waiting.len() <= KEYBOARD_CAPACITY,
    ensures
        keys_added(waiting, arrived) == (waiting + arrived).take(
            if waiting.len() + arrived.len() < KEYBOARD_CAPACITY {
                (waiting.len() + arrived.len()) as int
            } else {
                KEYBOARD_CAPACITY as int
            },
        ),
    decreases arrived.len(),
{
    if arrived.len() == 0 {
        assert((waiting + arrived).take(waiting.len() as int) =~= waiting);
    } else {
        let prev = arrived.drop_last();
        lemma_keys_added(waiting, prev);
        let all = waiting + arrived;
        assert(waiting + prev =~= all.drop_last());
        if waiting.len() + prev.len() < KEYBOARD_CAPACITY {
            assert((waiting + prev).take((waiting.len() + prev.len()) as int) =~= waiting + prev);
            assert((waiting + prev).push(arrived.last()) =~= all.take(all.len() as int));
        } else {
            assert((waiting + prev).take(KEYBOARD_CAPACITY as int) =~= all.take(KEYBOARD_CAPACITY as int));
        }
    }
}

} // verus!
