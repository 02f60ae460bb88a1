//! The edit box of the wallet: what it makes of the key events that the
//! keyboard node sends it.
//!
//! A key event travels as four modifier flags, a repeat flag and the name
//! of the key.  Each flag is one byte, zero for false; the name is a
//! serialized string.

use crate::frame::{parse_block, read_block, string_from_utf8};
use crate::text::same_text;
use crate::wire::{Parsed, Read};
use vstd::prelude::*;
use vstd::slice::slice_subrange;
use vstd::utf8::{decode_utf8, valid_utf8};

verus! {

/// The modifier keys that were held.
#[derive(Clone, Copy, Debug, PartialEq, Eq, Structural)]
pub struct KeyMods {
    pub shift: bool,
    pub ctrl: bool,
    pub alt: bool,
    pub logo: bool,
}

/// A key event.
#[derive(Debug)]
pub struct KeyEvent {
    pub mods: KeyMods,
    /// Whether the event repeats a key that is held down.
    pub repeat: bool,
    /// The name of the key.
    pub key: String,
}

/// A key event as a mathematical value.
pub struct KeyEventView {
    pub mods: KeyMods,
    pub repeat: bool,
    pub key: Seq<char>,
}

impl View for KeyEvent {
    type V = KeyEventView;

    open spec fn view(&self) -> KeyEventView {
        KeyEventView { mods: self.mods, repeat: self.repeat, key: self.key@ }
    }
}

/// The key event that `data` starts with, if it starts with one.  What
/// follows the event is not looked at.
pub open spec fn parse_key_down(data: Seq<u8>) -> Option<KeyEventView> {
    if data.len() < 5 {
        None
    } else {
        match parse_block(data.skip(5)) {
            Parsed::Done { value, consumed } => if valid_utf8(value) {
                Some(
                    KeyEventView {
                        mods: KeyMods {
                            shift: data[0] != 0,
                            ctrl: data[1] != 0,
                            alt: data[2] != 0,
                            logo: data[3] != 0,
                        },
                        repeat: data[4] != 0,
                        key: decode_utf8(value),
                    },
                )
            } else {
                None
            },
            _ => None,
        }
    }
}

/// What a key press makes the edit box do.
#[derive(Clone, Copy, Debug, PartialEq, Eq, Structural)]
pub enum KeyAction {
    /// Nothing.
    Ignore,
    /// Scroll one page up.
    PageUp,
    /// Scroll one page down.
    PageDown,
}

/// What the key named `key` makes the edit box do.  Repeats of a held key
/// are ignored.
pub open spec fn key_action(key: Seq<char>, repeat: bool) -> KeyAction {
    if repeat {
        KeyAction::Ignore
    } else if key == "PageUp"@ {
        KeyAction::PageUp
    } else if key == "PageDown"@ {
        KeyAction::PageDown
    } else {
        KeyAction::Ignore
    }
}

/// An edit box.
#[derive(Clone, Copy, Debug)]
pub struct EditBox {
    /// The handle of the property that holds the scroll offset.
    pub scroll: u32,
}

impl EditBox {
    /// An edit box that scrolls through the property `scroll`.
    pub fn new(scroll: u32) -> (r: EditBox)
        ensures
            r.scroll == scroll,
    {
        EditBox { scroll }
    }

    /// Reads the key event that the keyboard node sent.  `None` exactly
    /// when `data` does not start with a key event.
    pub fn decode_key_down(data: &[u8]) -> (r: Option<KeyEvent>)
        ensures
            r.is_some() == parse_key_down(data@).is_some(),
            r matches Some(event) ==> parse_key_down(data@) == Some(event@),
    {
        if data.len() < 5 {
            return None;
        }
        let mods = KeyMods {
            shift: data[0] != 0,
            ctrl: data[1] != 0,
            alt: data[2] != 0,
            logo: data[3] != 0,
        };
        let repeat = data[4] != 0;
        let tail = slice_subrange(data, 5, data.len());
        assert(tail@ =~= data@.skip(5));
        match read_block(tail) {
            Read::Done { value, consumed } => match string_from_utf8(value) {
                Some(key) => Some(KeyEvent { mods, repeat, key }),
                None => None,
            },
            _ => None,
        }
    }

    /// What a key press makes the edit box do.
    pub fn key_press(&self, key: &str, mods: KeyMods, repeat: bool) -> (action: KeyAction)
        ensures
            action == key_action(key@, repeat),
    {
        if repeat {
            return KeyAction::Ignore;
        }
        if same_text(key, "PageUp") {
            KeyAction::PageUp
        } else if same_text(key, "PageDown") {
            KeyAction::PageDown
        } else {
            KeyAction::Ignore
        }
    }
}

} // verus!
