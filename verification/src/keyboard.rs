use pc_keyboard::layouts::Azerty;
use pc_keyboard::{DecodedKey, Error, HandleControl, KeyEvent, Keyboard, ScancodeSet1};
use vstd::prelude::*;

verus! {

/// `pc_keyboard::KeyEvent`: a key and whether it went down or up.  The desktop hands it on to
/// the active screen and never looks inside.
#[verifier::external_type_specification]
#[verifier::external_body]
pub struct ExKeyEvent(KeyEvent);

/// `pc_keyboard::Error`: why a byte could not be decoded.  The desktop treats every error alike.
#[verifier::external_type_specification]
#[verifier::external_body]
pub struct ExError(Error);

/// `<pc_keyboard::KeyEvent as Clone>::clone`, which the crate derives: the copy holds the same
/// key and the same state as the event it was made from.
pub assume_specification[ <KeyEvent as Clone>::clone ](event: &KeyEvent) -> (copy: KeyEvent)
    ensures
        copy == *event,
;

/// The byte that announces an extended key: the key's own byte comes with the next interrupt.
pub const EXTENDED_PREFIX: u8 = 0xE0;

/// What a decoder carries from one byte to the next.
pub struct Held {
    /// The prefix of an extended key has arrived and the key's own byte has not.
    pub extended: bool,
    /// The left shift key is down.
    pub lshift: bool,
    /// The right shift key is down.
    pub rshift: bool,
    /// The left control key is down.
    pub lctrl: bool,
    /// The right control key is down.
    pub rctrl: bool,
    /// The numeric keypad gives digits.
    pub numlock: bool,
    /// Caps lock is on.
    pub capslock: bool,
    /// The right alt key is down.
    pub alt_gr: bool,
}

impl Held {
    /// What a decoder holds before its first byte: no prefix, no modifier, the numeric keypad
    /// on digits.
    pub open spec fn fresh() -> Held {
        Held {
            extended: false,
            lshift: false,
            rshift: false,
            lctrl: false,
            rctrl: false,
            numlock: true,
            capslock: false,
            alt_gr: false,
        }
    }

    /// The same with the prefix awaited or not.
    pub open spec fn with_extended(self, extended: bool) -> Held {
        Held {
            extended,
            lshift: self.lshift,
            rshift: self.rshift,
            lctrl: self.lctrl,
            rctrl: self.rctrl,
            numlock: self.numlock,
            capslock: self.capslock,
            alt_gr: self.alt_gr,
        }
    }
}

/// The scancode decoder: a `pc_keyboard::Keyboard` for scancode set 1 and the AZERTY layout,
/// with the control keys passed through.
///
/// A key may arrive in several bytes, and the shift and lock keys change what later keys mean,
/// so the decoder carries state from one byte to the next.  The verifier does not see the
/// keyboard itself: it knows the decoder by `held`, and the keyboard's answers by `scanned`
/// and `processed`.
#[verifier::external_body]
pub struct Decoder {
    keyboard: Keyboard<Azerty, ScancodeSet1>,
}

/// The state of the keyboard inside a decoder: whether its decoding stands after the prefix
/// of an extended key, and its modifiers, field by field.
pub uninterp spec fn held(decoder: Decoder) -> Held;

/// What `pc_keyboard::Keyboard::add_byte` returns for a byte in scancode set 1, after the
/// prefix of an extended key or not: the key event that the set's tables give, nothing yet, or
/// the error for a byte that they do not hold.
pub uninterp spec fn scanned(extended: bool, byte: u8) -> Result<Option<KeyEvent>, Error>;

/// What `pc_keyboard::Keyboard::process_keyevent` does with a key event under the AZERTY
/// layout: first what the keyboard holds afterwards, then what the key stands for.
pub uninterp spec fn processed(held: Held, event: KeyEvent) -> (Held, Option<Decoded>);

impl View for Decoder {
    type V = Held;

    open spec fn view(&self) -> Held {
        held(*self)
    }
}

/// What a completed key event stands for once the layout has been applied.
pub enum Decoded {
    /// A character.
    Unicode(char),
    /// A key that has no character of its own.
    RawKey,
}

/// `pc_keyboard::Keyboard::new`, with the set, the layout and the control handling above.
/// The new keyboard stands at the start of a key and has no modifier set but the number lock.
#[verifier::external_body]
fn new_keyboard() -> (decoder: Decoder)
    ensures
        held(decoder) == Held::fresh(),
{
    Decoder { keyboard: Keyboard::new(Azerty, ScancodeSet1, HandleControl::Ignore) }
}

/// `pc_keyboard::Keyboard::add_byte`, which for this set is `ScancodeSet1::advance_state`.
/// The result is `scanned` of where the decoding stood and of the byte: it is a function of
/// these two alone.  The prefix at the start of a key gives nothing yet and is awaited no more
/// after the byte that follows it; no other byte is awaited, and no modifier changes.
#[verifier::external_body]
fn add_byte(decoder: &mut Decoder, byte: u8) -> (result: Result<Option<KeyEvent>, Error>)
    ensures
        result == scanned(held(*old(decoder)).extended, byte),
        !held(*old(decoder)).extended && byte == EXTENDED_PREFIX ==> result matches Ok(None),
        held(*final(decoder)) == held(*old(decoder)).with_extended(
            !held(*old(decoder)).extended && byte == EXTENDED_PREFIX,
        ),
{
    decoder.keyboard.add_byte(byte)
}

/// `pc_keyboard::Keyboard::process_keyevent`: applies the modifiers and the layout to a key
/// event, and takes note of a modifier key.  Both what the keyboard holds afterwards and the
/// result are `processed` of what it held and of the event; where the decoding stands among
/// the bytes is not touched.
#[verifier::external_body]
fn process_keyevent(decoder: &mut Decoder, event: KeyEvent) -> (key: Option<Decoded>)
    ensures
        key == processed(held(*old(decoder)), event).1,
        held(*final(decoder)) == processed(held(*old(decoder)), event).0,
        held(*final(decoder)).extended == held(*old(decoder)).extended,
{
    match decoder.keyboard.process_keyevent(event) {
        Some(DecodedKey::Unicode(character)) => Some(Decoded::Unicode(character)),
        Some(DecodedKey::RawKey(_)) => Some(Decoded::RawKey),
        None => None,
    }
}

/// The key event that a byte completed, if the keyboard's answer holds one: an error and
/// "nothing yet" both count as none.
pub open spec fn completed_event(result: Result<Option<KeyEvent>, Error>) -> Option<KeyEvent> {
    match result {
        Ok(Some(event)) => Some(event),
        Ok(None) => None,
        Err(_) => None,
    }
}

/// The character that a decoded key brings: none for a raw key or for no key.
pub open spec fn character_of(key: Option<Decoded>) -> Option<char> {
    match key {
        Some(Decoded::Unicode(c)) => Some(c),
        Some(Decoded::RawKey) => None,
        None => None,
    }
}

/// What one scancode does to a decoder that holds `held`: first what the decoder holds
/// afterwards, then the key event that the scancode completed and the character that goes
/// with it.  A completed key event is run through the layout at once, so a modifier key is
/// noted before the next byte arrives.
pub open spec fn decoding(held: Held, scancode: u8) -> (Held, Option<(KeyEvent, Option<char>)>) {
    let fed = held.with_extended(!held.extended && scancode == EXTENDED_PREFIX);
    match completed_event(scanned(held.extended, scancode)) {
        Some(event) => (
            processed(fed, event).0,
            Some((event, character_of(processed(fed, event).1))),
        ),
        None => (fed, None),
    }
}

/// The key event in the keyboard's answer to a byte.
pub fn completed(result: Result<Option<KeyEvent>, Error>) -> (event: Option<KeyEvent>)
    ensures
        event == completed_event(result),
{
    match result {
        Ok(Some(event)) => Some(event),
        _ => None,
    }
}

/// The character that goes to the screen with a key event: the one that the key stands for,
/// and none for a raw key or where the decoder gave nothing.
pub fn printable(key: Option<Decoded>) -> (character: Option<char>)
    ensures
        character == character_of(key),
{
    match key {
        Some(Decoded::Unicode(c)) => Some(c),
        _ => None,
    }
}

impl Decoder {
    /// A decoder that has seen no byte yet.
    pub fn new() -> (decoder: Decoder)
        ensures
            decoder@ == Held::fresh(),
    {
        new_keyboard()
    }

    /// Feeds one scancode to the decoder.  Where it completes a key event, the result is that
    /// event and the character that goes with it; an error of the decoder counts as no event.
    pub(crate) fn decode(&mut self, scancode: u8) -> (decoded: Option<(KeyEvent, Option<char>)>)
        ensures
            decoded == decoding(old(self)@, scancode).1,
            final(self)@ == decoding(old(self)@, scancode).0,
            final(self)@.extended == (!old(self)@.extended && scancode == EXTENDED_PREFIX),
            final(self)@.extended ==> decoded is None,
    {
        match completed(add_byte(self, scancode)) {
            Some(event) => {
                let copy = event.clone();
                let key = process_keyevent(self, event);
                Some((copy, printable(key)))
            },
            None => None,
        }
    }
}

} // verus!
