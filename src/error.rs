use vstd::prelude::*;

verus! {

/// Native code reported when the subsystem is used before initialisation.
pub const NOT_INITIALIZED: i32 = 0x00010001;
/// Native code reported when an operation needs a current context and none is.
pub const NO_CURRENT_CONTEXT: i32 = 0x00010002;
/// Native code reported for an enumeration argument that is not recognised.
pub const INVALID_ENUM: i32 = 0x00010003;
/// Native code reported for an argument value out of range.
pub const INVALID_VALUE: i32 = 0x00010004;
/// Native code reported when an allocation failed.
pub const OUT_OF_MEMORY: i32 = 0x00010005;
/// Native code reported when the requested client API is not available.
pub const API_UNAVAILABLE: i32 = 0x00010006;
/// Native code reported when the requested context version is not available.
pub const VERSION_UNAVAILABLE: i32 = 0x00010007;
/// Native code reported for a platform-specific failure.
pub const PLATFORM_ERROR: i32 = 0x00010008;
/// Native code reported when a requested pixel format is not available.
pub const FORMAT_UNAVAILABLE: i32 = 0x00010009;
/// Native code reported when a window without a context is used as one.
pub const NO_WINDOW_CONTEXT: i32 = 0x0001000A;

/// What went wrong in a native call.
#[derive(Clone, Copy, Debug, PartialEq, Eq, Structural)]
pub enum ErrorKind {
    NotInitialized,
    NoCurrentContext,
    InvalidEnum,
    InvalidValue,
    OutOfMemory,
    ApiUnavailable,
    VersionUnavailable,
    PlatformError,
    FormatUnavailable,
    NoWindowContext,
    /// The native layer reported failure without reporting an error.
    Unknown,
}

/// A typed failure: its kind and the description that came with it.
#[derive(Debug)]
pub struct Error {
    pub kind: ErrorKind,
    pub description: String,
}

/// The kind that a native error code stands for; `None` for a code that the
/// native layer does not define.
pub open spec fn kind_of_code(code: i32) -> Option<ErrorKind> {
    if code == NOT_INITIALIZED {
        Some(ErrorKind::NotInitialized)
    } else if code == NO_CURRENT_CONTEXT {
        Some(ErrorKind::NoCurrentContext)
    } else if code == INVALID_ENUM {
        Some(ErrorKind::InvalidEnum)
    } else if code == INVALID_VALUE {
        Some(ErrorKind::InvalidValue)
    } else if code == OUT_OF_MEMORY {
        Some(ErrorKind::OutOfMemory)
    } else if code == API_UNAVAILABLE {
        Some(ErrorKind::ApiUnavailable)
    } else if code == VERSION_UNAVAILABLE {
        Some(ErrorKind::VersionUnavailable)
    } else if code == PLATFORM_ERROR {
        Some(ErrorKind::PlatformError)
    } else if code == FORMAT_UNAVAILABLE {
        Some(ErrorKind::FormatUnavailable)
    } else if code == NO_WINDOW_CONTEXT {
        Some(ErrorKind::NoWindowContext)
    } else {
        None
    }
}

/// The native code of a kind; `Unknown` has none.
pub open spec fn code_of_kind(kind: ErrorKind) -> Option<i32> {
    match kind {
        ErrorKind::NotInitialized => Some(NOT_INITIALIZED),
        ErrorKind::NoCurrentContext => Some(NO_CURRENT_CONTEXT),
        ErrorKind::InvalidEnum => Some(INVALID_ENUM),
        ErrorKind::InvalidValue => Some(INVALID_VALUE),
        ErrorKind::OutOfMemory => Some(OUT_OF_MEMORY),
        ErrorKind::ApiUnavailable => Some(API_UNAVAILABLE),
        ErrorKind::VersionUnavailable => Some(VERSION_UNAVAILABLE),
        ErrorKind::PlatformError => Some(PLATFORM_ERROR),
        ErrorKind::FormatUnavailable => Some(FORMAT_UNAVAILABLE),
        ErrorKind::NoWindowContext => Some(NO_WINDOW_CONTEXT),
        ErrorKind::Unknown => None,
    }
}

impl ErrorKind {
    /// Translates a native error code.
    pub fn from_code(code: i32) -> (r: Option<ErrorKind>)
        ensures
            r == kind_of_code(code),
    {
        if code == NOT_INITIALIZED {
            Some(ErrorKind::NotInitialized)
        } else if code == NO_CURRENT_CONTEXT {
            Some(ErrorKind::NoCurrentContext)
        } else if code == INVALID_ENUM {
            Some(ErrorKind::InvalidEnum)
        } else if code == INVALID_VALUE {
            Some(ErrorKind::InvalidValue)
        } else if code == OUT_OF_MEMORY {
            Some(ErrorKind::OutOfMemory)
        } else if code == API_UNAVAILABLE {
            Some(ErrorKind::ApiUnavailable)
        } else if code == VERSION_UNAVAILABLE {
            Some(ErrorKind::VersionUnavailable)
        } else if code == PLATFORM_ERROR {
            Some(ErrorKind::PlatformError)
        } else if code == FORMAT_UNAVAILABLE {
            Some(ErrorKind::FormatUnavailable)
        } else if code == NO_WINDOW_CONTEXT {
            Some(ErrorKind::NoWindowContext)
        } else {
            None
        }
    }

    /// The native code of this kind, if it has one.
    pub fn code(self) -> (r: Option<i32>)
        ensures
            r == code_of_kind(self),
    {
        match self {
            ErrorKind::NotInitialized => Some(NOT_INITIALIZED),
            ErrorKind::NoCurrentContext => Some(NO_CURRENT_CONTEXT),
            ErrorKind::InvalidEnum => Some(INVALID_ENUM),
            ErrorKind::InvalidValue => Some(INVALID_VALUE),
            ErrorKind::OutOfMemory => Some(OUT_OF_MEMORY),
            ErrorKind::ApiUnavailable => Some(API_UNAVAILABLE),
            ErrorKind::VersionUnavailable => Some(VERSION_UNAVAILABLE),
            ErrorKind::PlatformError => Some(PLATFORM_ERROR),
            ErrorKind::FormatUnavailable => Some(FORMAT_UNAVAILABLE),
            ErrorKind::NoWindowContext => Some(NO_WINDOW_CONTEXT),
            ErrorKind::Unknown => None,
        }
    }
}

/// Translating a kind's code gives the kind back, and every code that
/// translates is the code of what it translates to.
pub proof fn code_translation_round_trip(kind: ErrorKind, code: i32)
    ensures
        code_of_kind(kind) matches Some(c) ==> kind_of_code(c) == Some(kind),
        kind_of_code(code) matches Some(k) ==> code_of_kind(k) == Some(code),
        code_of_kind(kind) is None <==> kind == ErrorKind::Unknown,
{
}

/// The single slot that holds the most recent error the native layer
/// reported and that no fallible operation has yet collected.
pub struct ErrorState {
    slot: Option<Error>,
}

impl View for ErrorState {
    type V = Option<Error>;

    closed spec fn view(&self) -> Option<Error> {
        self.slot
    }
}

/// The description given to an `Unknown` error.
pub const UNKNOWN_DESCRIPTION: &'static str = "the native layer reported failure without reporting an error";

/// Whether `e` is the error that a failed native call stands for, given what
/// the slot held: the captured error itself, or an `Unknown` one where
/// nothing was captured.
pub open spec fn is_failure(e: Error, captured: Option<Error>) -> bool {
    match captured {
        Some(c) => e == c,
        None => e.kind == ErrorKind::Unknown && e.description@ == UNKNOWN_DESCRIPTION@,
    }
}

impl ErrorState {
    /// An empty slot.
    pub fn new() -> (r: ErrorState)
        ensures
            r@ is None,
    {
        ErrorState { slot: None }
    }

    /// Whether an error is waiting to be collected.
    pub fn is_set(&self) -> (r: bool)
        ensures
            r == self@.is_some(),
    {
        self.slot.is_some()
    }

    /// Records an error the native layer reported, replacing any earlier one.
    /// A code the native layer does not define is refused (`false`) and leaves
    /// the slot as it was: it means the native library and this crate disagree
    /// on the error codes, which the caller treats as fatal.
    pub fn report(&mut self, code: i32, description: String) -> (r: bool)
        ensures
            r == kind_of_code(code).is_some(),
            r ==> final(self)@ == Some(Error { kind: kind_of_code(code).unwrap(), description }),
            !r ==> final(self)@ == old(self)@,
    {
        match ErrorKind::from_code(code) {
            Some(kind) => {
                self.slot = Some(Error { kind, description });
                true
            },
            None => false,
        }
    }

    /// Reads and clears the slot: `Err` with the captured error if there was
    /// one, `Ok` otherwise.
    pub fn check_and_clear(&mut self) -> (r: Result<(), Error>)
        ensures
            final(self)@ is None,
            old(self)@ is None ==> r is Ok,
            old(self)@ matches Some(e) ==> r == Err::<(), Error>(e),
    {
        match self.slot.take() {
            Some(e) => Err(e),
            None => Ok(()),
        }
    }

    /// The error for a native call that reported failure: the captured error,
    /// or an `Unknown` one where nothing was captured. Clears the slot.
    pub fn take_failure(&mut self) -> (r: Error)
        ensures
            final(self)@ is None,
            is_failure(r, old(self)@),
    {
        match self.slot.take() {
            Some(e) => e,
            None => Error { kind: ErrorKind::Unknown, description: UNKNOWN_DESCRIPTION.to_owned() },
        }
    }
}

/// A native call that fails after the native layer reported a known code
/// fails with the kind of that code and the description that came with it.
pub proof fn failure_carries_reported_code(code: i32, description: String, e: Error)
    requires
        kind_of_code(code) is Some,
        is_failure(e, Some(Error { kind: kind_of_code(code).unwrap(), description })),
    ensures
        e.kind == kind_of_code(code).unwrap(),
        code_of_kind(e.kind) == Some(code),
        e.description == description,
{
}

} // verus!
