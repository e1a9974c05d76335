//! Keyboard shortcuts written as text, such as `ctrl + shift + a`, read into
//! a mask of modifier flags and the code of one key.
//!
//! [`Hotkey`] is read from a string with [`std::str::FromStr`] or from its
//! tokens with [`parse_hotkey`]. Every function carries a contract over the
//! characters of its input. The laws that hold of the definitions are proved
//! beside them, those of the grammar as a whole in [`laws`].

pub mod hotkey;
pub mod laws;
pub mod modifier;
pub mod parse_hotkey_error;
pub mod shortcut_key;
pub mod special_key;
pub mod split;
pub mod text;
pub mod visible_key;

pub use crate::hotkey::{parse_hotkey, Hotkey};
pub use crate::modifier::Modifier;
pub use crate::parse_hotkey_error::ParseHotkeyError;
pub use crate::shortcut_key::ShortcutKey;
pub use crate::special_key::SpecialKey;
pub use crate::visible_key::VisibleKey;
