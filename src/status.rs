use vstd::prelude::*;

verus! {

/// Status code of the engine's client API: success.
pub const MPV_ERROR_SUCCESS: i32 = 0;

/// Status code of the engine's client API: a parameter was rejected (among
/// others, a stream protocol name that is already registered).
pub const MPV_ERROR_INVALID_PARAMETER: i32 = -4;

/// Status code of the engine's client API: the operation is not supported.
pub const MPV_ERROR_UNSUPPORTED: i32 = -18;

/// Status code of the engine's client API: unspecified failure.
pub const MPV_ERROR_GENERIC: i32 = -20;

/// Major version of the engine's client API this library is written against.
pub const MPV_CLIENT_API_MAJOR: u64 = 2;

/// Minor version of the engine's client API this library is written against.
pub const MPV_CLIENT_API_MINOR: u64 = 5;

/// Full client API version: the major version in the upper half, the minor in
/// the lower 16 bits.
pub const MPV_CLIENT_API_VERSION: u64 = (MPV_CLIENT_API_MAJOR << 16u64) | MPV_CLIENT_API_MINOR;

/// Errors that are reported to the caller of the library.
#[derive(Debug, Clone, Copy, PartialEq, Eq, Structural)]
pub enum Error {
    /// A name cannot be handed to the engine: it holds a NUL character.
    InvalidName,
    /// The engine already has a stream protocol of that name.
    DuplicateScheme,
    /// The engine that was loaded speaks another major version of the API.
    VersionMismatch { linked: u64, loaded: u64 },
    /// The engine could not allocate a handle.
    Null,
    /// Text that the engine handed back is not valid UTF-8.
    InvalidUtf8,
    /// Any other status code that the engine reported.
    Raw(i32),
}

/// Turns an engine status code into a result: `0` is success, anything else an error.
pub fn mpv_err<T>(ret: T, err: i32) -> (r: Result<T, Error>)
    ensures
        err == MPV_ERROR_SUCCESS ==> r == Ok::<T, Error>(ret),
        err != MPV_ERROR_SUCCESS ==> r == Err::<T, Error>(Error::Raw(err)),
{
    if err == MPV_ERROR_SUCCESS {
        Ok(ret)
    } else {
        Err(Error::Raw(err))
    }
}

/// Major version encoded in a client API version number.
pub open spec fn api_major(version: u64) -> u64 {
    version >> 16u64
}

/// Checks that the engine that was loaded speaks the major API version this
/// library is written against.
pub fn check_client_api(loaded: u64) -> (r: Result<(), Error>)
    ensures
        api_major(loaded) == MPV_CLIENT_API_MAJOR ==> r == Ok::<(), Error>(()),
        api_major(loaded) != MPV_CLIENT_API_MAJOR ==> r == Err::<(), Error>(
            Error::VersionMismatch { linked: MPV_CLIENT_API_VERSION, loaded },
        ),
{
    if loaded >> 16u64 == MPV_CLIENT_API_MAJOR {
        Ok(())
    } else {
        Err(Error::VersionMismatch { linked: MPV_CLIENT_API_VERSION, loaded })
    }
}

/// Whether a text can be handed to the engine as a NUL-terminated string.
pub open spec fn is_c_text(s: Seq<char>) -> bool {
    forall|i: int| 0 <= i < s.len() ==> s[i] != '\0'
}

/// Tests whether `s` can be handed to the engine as a NUL-terminated string.
pub fn c_text_ok(s: &str) -> (r: bool)
    ensures
        r == is_c_text(s@),
{
    let n = s.unicode_len();
    let mut i: usize = 0;
    while i < n
        invariant
            n == s@.len(),
            i <= n,
            forall|j: int| 0 <= j < i ==> s@[j] != '\0',
        decreases n - i,
    {
        if s.get_char(i) == '\0' {
            return false;
        }
        i = i + 1;
    }
    true
}

} // verus!
