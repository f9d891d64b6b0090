//! Custom stream protocols for the mpv media engine: the verified core of the
//! bridge between the engine's stream callbacks and application logic.

mod format;
pub mod protocol;
mod status;

pub use format::Format;
pub use status::{
    api_major, c_text_ok, check_client_api, is_c_text, mpv_err, Error, MPV_CLIENT_API_MAJOR,
    MPV_CLIENT_API_MINOR, MPV_CLIENT_API_VERSION, MPV_ERROR_GENERIC, MPV_ERROR_INVALID_PARAMETER,
    MPV_ERROR_SUCCESS, MPV_ERROR_UNSUPPORTED,
};
