//! Typed front end of the ephemeris engine: bodies, flags, the lifecycle of
//! the engine's global state, and the decoding of the engine's replies.

pub mod body;
pub mod calc;
pub mod flag;
pub mod lifecycle;
pub mod query;
pub mod text;
pub mod time;

pub use self::body::Body;
pub use self::calc::{
    calculate_ut, classify, BodyResult, CalculationError, CalculationResult,
    EclipticAndNutationResult,
};
pub use self::flag::Flag;
pub use self::lifecycle::{
    assert_ephe_ready, close, configure_violation, get_ephe_path, jpl_file_violation,
    readiness_violation, set_ephe_path, set_jpl_file, Ephemeris, Misuse, MisuseKind,
    PathDirective, Phase,
};
pub use self::query::{
    get_current_file_data, get_library_path, get_planet_name, version, FileData,
};
pub use self::text::{
    append_decimal, decode_path, decode_text, decoded_text, text_buffer, text_len, MAXCH,
};
pub use self::time::{utc_to_julian_day, JulianDayCall, SE_GREG_CAL};
