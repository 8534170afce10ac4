use vstd::prelude::*;

verus! {

/// The failure taxonomy of this layer. Every nonzero foreign status code maps
/// to exactly one of these kinds; codes outside the known table land in
/// `Other`, so a caller never sees an unmapped raw integer.
#[derive(Debug, Copy, Clone, PartialEq, Eq, Structural)]
pub enum ErrorKind {
    /// The display reference or handle does not name a usable display.
    InvalidDisplay,
    /// A transport or DDC data failure while talking to the display.
    Io,
    /// The operation gave up after its retries were exhausted.
    Timeout,
    /// The feature is unsupported, unknown, or the call is unimplemented.
    UnsupportedFeature,
    /// A bad argument or an invalid operation for the current state.
    BadArgument,
    /// The requested item was not found.
    NotFound,
    /// A capability string or response could not be interpreted.
    Parse,
    /// Any status code outside the known table.
    Other,
}

// The protocol library's status code space: zero is success, failures are
// negative codes in a fixed block.
pub const STATUS_OK: i32 = 0;
pub const STATUS_DDC_DATA: i32 = -3000;
pub const STATUS_NULL_RESPONSE: i32 = -3001;
pub const STATUS_MULTI_PART_READ_FRAGMENT: i32 = -3002;
pub const STATUS_ALL_TRIES_ZERO: i32 = -3003;
pub const STATUS_REPORTED_UNSUPPORTED: i32 = -3004;
pub const STATUS_READ_ALL_ZERO: i32 = -3005;
pub const STATUS_RETRIES: i32 = -3006;
pub const STATUS_EDID: i32 = -3007;
pub const STATUS_READ_EDID: i32 = -3008;
pub const STATUS_INVALID_EDID: i32 = -3009;
pub const STATUS_ALL_RESPONSES_NULL: i32 = -3010;
pub const STATUS_DETERMINED_UNSUPPORTED: i32 = -3011;
pub const STATUS_ARG: i32 = -3012;
pub const STATUS_INVALID_OPERATION: i32 = -3013;
pub const STATUS_UNIMPLEMENTED: i32 = -3014;
pub const STATUS_UNINITIALIZED: i32 = -3015;
pub const STATUS_UNKNOWN_FEATURE: i32 = -3016;
pub const STATUS_INTERPRETATION_FAILED: i32 = -3017;
pub const STATUS_MULTI_PART_WRITE_FRAGMENT: i32 = -3018;
pub const STATUS_INVALID_DISPLAY: i32 = -3019;
pub const STATUS_NOT_FOUND: i32 = -3021;

/// Whether a status code is in the known failure table.
pub open spec fn known_status(status: int) -> bool {
    ||| status == STATUS_DDC_DATA
    ||| status == STATUS_NULL_RESPONSE
    ||| status == STATUS_MULTI_PART_READ_FRAGMENT
    ||| status == STATUS_ALL_TRIES_ZERO
    ||| status == STATUS_REPORTED_UNSUPPORTED
    ||| status == STATUS_READ_ALL_ZERO
    ||| status == STATUS_RETRIES
    ||| status == STATUS_EDID
    ||| status == STATUS_READ_EDID
    ||| status == STATUS_INVALID_EDID
    ||| status == STATUS_ALL_RESPONSES_NULL
    ||| status == STATUS_DETERMINED_UNSUPPORTED
    ||| status == STATUS_ARG
    ||| status == STATUS_INVALID_OPERATION
    ||| status == STATUS_UNIMPLEMENTED
    ||| status == STATUS_UNINITIALIZED
    ||| status == STATUS_UNKNOWN_FEATURE
    ||| status == STATUS_INTERPRETATION_FAILED
    ||| status == STATUS_MULTI_PART_WRITE_FRAGMENT
    ||| status == STATUS_INVALID_DISPLAY
    ||| status == STATUS_NOT_FOUND
}

/// The fixed mapping from a nonzero status code to its error kind.
pub open spec fn status_kind(status: int) -> ErrorKind {
    if status == STATUS_INVALID_DISPLAY {
        ErrorKind::InvalidDisplay
    } else if status == STATUS_DDC_DATA || status == STATUS_NULL_RESPONSE
        || status == STATUS_MULTI_PART_READ_FRAGMENT || status == STATUS_READ_ALL_ZERO
        || status == STATUS_ALL_RESPONSES_NULL || status == STATUS_EDID
        || status == STATUS_READ_EDID || status == STATUS_INVALID_EDID
        || status == STATUS_MULTI_PART_WRITE_FRAGMENT {
        ErrorKind::Io
    } else if status == STATUS_RETRIES || status == STATUS_ALL_TRIES_ZERO {
        ErrorKind::Timeout
    } else if status == STATUS_REPORTED_UNSUPPORTED || status == STATUS_DETERMINED_UNSUPPORTED
        || status == STATUS_UNKNOWN_FEATURE || status == STATUS_UNIMPLEMENTED {
        ErrorKind::UnsupportedFeature
    } else if status == STATUS_ARG || status == STATUS_INVALID_OPERATION
        || status == STATUS_UNINITIALIZED {
        ErrorKind::BadArgument
    } else if status == STATUS_NOT_FOUND {
        ErrorKind::NotFound
    } else if status == STATUS_INTERPRETATION_FAILED {
        ErrorKind::Parse
    } else {
        ErrorKind::Other
    }
}

/// A typed failure: the raw foreign status code together with its mapped
/// kind, so a caller can decide whether to retry, skip a display, or abort.
#[derive(Debug, Copy, Clone, PartialEq, Eq, Structural)]
pub struct Error {
    pub status: i32,
    pub kind: ErrorKind,
}

impl Error {
    /// Map a raw foreign status code: zero is success, anything else is
    /// a typed failure carrying the original code and its mapped kind.
    pub fn from_status(status: i32) -> (r: Result<(), Error>)
        ensures
            status == 0 <==> r is Ok,
            r matches Err(e) ==> e.status == status && e.kind == status_kind(status as int),
    {
        if status == 0 {
            Ok(())
        } else {
            Err(Error { status, kind: classify_status(status) })
        }
    }

    pub fn kind(&self) -> (k: ErrorKind)
        ensures
            k == self.kind,
    {
        self.kind
    }

    pub fn status(&self) -> (s: i32)
        ensures
            s == self.status,
    {
        self.status
    }
}

/// Map a status code to its kind, exactly as `status_kind` states.
fn classify_status(status: i32) -> (k: ErrorKind)
    ensures
        k == status_kind(status as int),
{
    if status == STATUS_INVALID_DISPLAY {
        ErrorKind::InvalidDisplay
    } else if status == STATUS_DDC_DATA || status == STATUS_NULL_RESPONSE
        || status == STATUS_MULTI_PART_READ_FRAGMENT || status == STATUS_READ_ALL_ZERO
        || status == STATUS_ALL_RESPONSES_NULL || status == STATUS_EDID
        || status == STATUS_READ_EDID || status == STATUS_INVALID_EDID
        || status == STATUS_MULTI_PART_WRITE_FRAGMENT {
        ErrorKind::Io
    } else if status == STATUS_RETRIES || status == STATUS_ALL_TRIES_ZERO {
        ErrorKind::Timeout
    } else if status == STATUS_REPORTED_UNSUPPORTED || status == STATUS_DETERMINED_UNSUPPORTED
        || status == STATUS_UNKNOWN_FEATURE || status == STATUS_UNIMPLEMENTED {
        ErrorKind::UnsupportedFeature
    } else if status == STATUS_ARG || status == STATUS_INVALID_OPERATION
        || status == STATUS_UNINITIALIZED {
        ErrorKind::BadArgument
    } else if status == STATUS_NOT_FOUND {
        ErrorKind::NotFound
    } else if status == STATUS_INTERPRETATION_FAILED {
        ErrorKind::Parse
    } else {
        ErrorKind::Other
    }
}

/// Law: the status mapping is total and deterministic. Every code has a
/// kind; a code outside the known table maps to `Other` and nothing else, and
/// success is exactly the zero code.
pub proof fn lemma_status_mapping_total(status: int)
    ensures
        !known_status(status) ==> status_kind(status) == ErrorKind::Other,
        known_status(status) ==> status_kind(status) != ErrorKind::Other,
        status != 0 ==> known_status(status) || status_kind(status) == ErrorKind::Other,
{
}

} // verus!
