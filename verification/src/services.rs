//! Plain values of the services around the player: the converter and the
//! splitter, which hold no state, the segments a caller hands them, and the
//! stored configuration.

use vstd::prelude::*;

verus! {

/// Converts files to MP3. Holds no state.
#[derive(Clone, Copy, Debug, PartialEq, Eq, Structural)]
pub struct Converter;

impl Converter {
    pub fn new() -> (converter: Self)
        ensures
            converter == Converter,
    {
        Converter
    }
}

/// Cuts segments out of an audio file. Holds no state.
#[derive(Clone, Copy, Debug, PartialEq, Eq, Structural)]
pub struct Splitter;

impl Splitter {
    pub fn new() -> (splitter: Self)
        ensures
            splitter == Splitter,
    {
        Splitter
    }
}

/// A named segment to cut out, with its bounds as the caller wrote them.
#[derive(Clone, Debug, PartialEq, Eq)]
pub struct SegmentInfo {
    pub name: String,
    pub start_time: String,
    pub end_time: String,
}

/// A stretch to mute, with its bounds as the caller wrote them.
#[derive(Clone, Debug, PartialEq, Eq)]
pub struct SilenceSegment {
    pub note: Option<String>,
    pub start_time: String,
    pub end_time: String,
}

/// Stored settings of the application.
#[derive(Clone, Debug, PartialEq, Eq)]
pub struct AppConfig {
    /// Directory under which projects are created, if the user chose one.
    pub custom_project_root: Option<String>,
}

impl Default for AppConfig {
    fn default() -> (config: Self)
        ensures
            config.custom_project_root is None,
    {
        AppConfig { custom_project_root: None }
    }
}

} // verus!
