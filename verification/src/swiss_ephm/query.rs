//! Read-only queries: what the engine says of itself, of a body and of the
//! data file that it has loaded.

use vstd::prelude::*;
use vstd::utf8::{decode_utf8, valid_utf8};
use crate::swiss_ephm::lifecycle::{assert_ephe_ready, Ephemeris, Phase};
use crate::swiss_ephm::text::{decode_path, decoded_text, latin1, logical_content};

verus! {

/// What the engine knows of a data file that it has loaded.
#[derive(Clone, Debug, PartialEq, Eq)]
pub struct FileData {
    /// Path to the data file.
    pub filepath: String,
    /// Start of the interval that the file covers, as a Julian day.
    pub start_date: u64,
    /// End of the interval that the file covers, as a Julian day.
    pub end_date: u64,
    /// The number of the ephemeris that the file was made from.
    pub ephemeris_num: i32,
}

/// The engine's version, from the buffer that the engine's version query
/// filled: the text before the buffer's terminator.
///
/// The engine must be ready, and the text must be well-formed.
pub fn version(engine: &Ephemeris, buffer: &[u8]) -> (text: String)
    requires
        engine@.phase == Phase::Ready,
        valid_utf8(logical_content(buffer@)),
    ensures
        text@ == decode_utf8(logical_content(buffer@)),
{
    assert_ephe_ready(engine, "version");
    decoded_text(buffer)
}

/// The path of the engine's library, from the buffer that the engine's
/// library path query filled: the text before the buffer's terminator.
///
/// The engine must be ready, and the text must be well-formed.
pub fn get_library_path(engine: &Ephemeris, buffer: &[u8]) -> (text: String)
    requires
        engine@.phase == Phase::Ready,
        valid_utf8(logical_content(buffer@)),
    ensures
        text@ == decode_utf8(logical_content(buffer@)),
{
    assert_ephe_ready(engine, "get_library_path");
    decoded_text(buffer)
}

/// The display name of a body, from the buffer that the engine's name
/// query filled when it was asked with the body's code: the text before the
/// buffer's terminator.
///
/// The engine must be ready, and the text must be well-formed.
pub fn get_planet_name(engine: &Ephemeris, buffer: &[u8]) -> (text: String)
    requires
        engine@.phase == Phase::Ready,
        valid_utf8(logical_content(buffer@)),
    ensures
        text@ == decode_utf8(logical_content(buffer@)),
{
    assert_ephe_ready(engine, "get_planet_name");
    decoded_text(buffer)
}

/// The description of a loaded data file, from what the engine's file query
/// returned: the bytes of the path that it lent, and the three values that
/// it wrote.
///
/// The path is copied up to its terminator, byte by byte, so that nothing
/// of the engine's memory is kept. The engine must be ready.
pub fn get_current_file_data(
    engine: &Ephemeris,
    path: &[u8],
    start_date: u64,
    end_date: u64,
    ephemeris_num: i32,
) -> (data: FileData)
    requires
        engine@.phase == Phase::Ready,
    ensures
        data.filepath@ == latin1(logical_content(path@)),
        data.start_date == start_date,
        data.end_date == end_date,
        data.ephemeris_num == ephemeris_num,
{
    assert_ephe_ready(engine, "get_current_file_data");
    FileData { filepath: decode_path(path), start_date, end_date, ephemeris_num }
}

} // verus!
