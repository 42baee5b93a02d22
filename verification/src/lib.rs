use vstd::prelude::*;

pub mod codec;
pub mod ext;
pub mod format;
pub mod json;
pub mod persist;
pub mod ron;
pub mod store;
pub mod stream;
pub mod toml;
pub mod value;
pub mod yaml;

pub use format::{resolve_path, Format};
pub use persist::{load, load_from_file, save, save_to_file};

verus! {

/// Error returned when a value could not be turned into bytes, or when
/// writing those bytes to the destination failed.
#[derive(Clone, Debug, PartialEq)]
pub struct EncodeErr {
    pub message: String,
}

/// Error returned when bytes could not be parsed into a value, or when
/// reading the source failed.
#[derive(Clone, Debug, PartialEq)]
pub struct DecodeErr {
    pub message: String,
}

} // verus!
