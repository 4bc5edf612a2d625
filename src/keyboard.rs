use vstd::prelude::*;
use pc_keyboard::layouts::Us104Key;
use pc_keyboard::{DecodedKey, HandleControl, KeyEvent, Keyboard, ScancodeSet1};

verus! {

#[verifier::external_type_specification]
#[verifier::external_body]
pub struct ExKeyEvent(KeyEvent);

#[verifier::external_type_specification]
#[verifier::external_body]
pub struct ExKeyboardError(pc_keyboard::Error);

/// A decoded key: a character, or a logical key that this kernel ignores.
#[derive(Debug, Clone, Copy, PartialEq, Eq, Structural)]
pub enum Key {
    Unicode(char),
    Raw,
}

/// pc_keyboard's decoder state, held out of Verus's sight: Verus cannot
/// declare `Keyboard` itself, whose parameters are bound by pc_keyboard's
/// own traits.
#[verifier::external_body]
struct PcKeyboard {
    keyboard: Keyboard<Us104Key, ScancodeSet1>,
}

impl PcKeyboard {
    /// Relies on pc_keyboard's `Keyboard::new`: a decoder for the US 104-key
    /// layout and scancode set 1, with Ctrl+letter mapped to control
    /// characters.
    #[verifier::external_body]
    fn new() -> (r: PcKeyboard) {
        PcKeyboard {
            keyboard: Keyboard::new(ScancodeSet1::new(), Us104Key, HandleControl::MapLettersToUnicode),
        }
    }

    /// Relies on pc_keyboard's `Keyboard::add_byte`: advances the scancode
    /// state machine by one byte, possibly completing a key event.
    #[verifier::external_body]
    fn add_byte(&mut self, byte: u8) -> Result<Option<KeyEvent>, pc_keyboard::Error> {
        self.keyboard.add_byte(byte)
    }

    /// Relies on pc_keyboard's `Keyboard::process_keyevent`: updates the
    /// modifier state and resolves the event to a key, if it produces one.
    #[verifier::external_body]
    fn process_keyevent(&mut self, ev: KeyEvent) -> Option<Key> {
        match self.keyboard.process_keyevent(ev) {
            Some(DecodedKey::Unicode(c)) => Some(Key::Unicode(c)),
            Some(DecodedKey::RawKey(_)) => Some(Key::Raw),
            None => None,
        }
    }
}

/// The keyboard decode pipeline: scancode bytes in, at most one key per byte
/// out. Its state lives for the whole run of the kernel.
pub struct KeyDecoder {
    keyboard: PcKeyboard,
    fed: Ghost<Seq<u8>>,
}

impl KeyDecoder {
    /// The scancode bytes fed to this decoder since it was made, oldest first.
    pub closed spec fn fed(&self) -> Seq<u8> {
        self.fed@
    }

    pub fn new() -> (r: KeyDecoder)
        ensures
            r.fed() == Seq::<u8>::empty(),
    {
        KeyDecoder { keyboard: PcKeyboard::new(), fed: Ghost(Seq::empty()) }
    }

    /// Resolves what the scancode stage produced for the latest byte: a
    /// completed key event goes on to the layout stage; a decode error or an
    /// unfinished multi-byte sequence yields no key.
    pub fn resolve(&mut self, added: Result<Option<KeyEvent>, pc_keyboard::Error>) -> (r: Option<Key>)
        ensures
            final(self).fed() == old(self).fed(),
            !(added matches Ok(Some(_))) ==> r is None,
    {
        match added {
            Ok(Some(ev)) => self.keyboard.process_keyevent(ev),
            Ok(None) => None,
            Err(_) => None,
        }
    }

    /// Feeds one scancode byte to the decoder and resolves what it produced.
    pub fn feed(&mut self, byte: u8) -> (r: Option<Key>)
        ensures
            final(self).fed() == old(self).fed().push(byte),
    {
        let added = self.keyboard.add_byte(byte);
        self.fed = Ghost(self.fed@.push(byte));
        self.resolve(added)
    }
}

} // verus!
