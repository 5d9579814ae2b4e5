//! The rules of a batch editor for the tags of audio files.
//!
//! The heart of the crate is [`format_to_title`], which makes a song title out
//! of a raw fragment of a file name: `the end of everything` becomes
//! `The End Of Everything`. Greek vowels lose their tonos, the first letter of
//! each word is capitalised and every other letter is lowered.
//!
//! Around it stand the decisions that the editor takes for each file: where
//! the track number and the title come from ([`wanted`]), which fields of the
//! tag have to be written ([`update`]), what the file is called afterwards
//! ([`file_name`]) and which frames a listing names ([`frames`]). Reading and
//! writing files is left to the caller.
//!
//! Three modules lean on code that is not verified here: [`unicode`] on the
//! character tables of the standard library, [`text`] on its strings and
//! [`pattern`] on the `regex` crate. [`laws`] holds what is proved of the
//! rest.

pub mod accent;
pub mod fields;
pub mod file_name;
pub mod frames;
pub mod laws;
pub mod number;
pub mod pattern;
pub mod text;
pub mod title;
pub mod unicode;
pub mod update;
pub mod wanted;

pub use title::format_to_title;
