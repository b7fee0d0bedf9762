//! The status and error code domain of the engine boundary.
//!
//! Every engine operation answers with a status code. Some codes are errors,
//! some are control signals the feeder must interpret (more data needed,
//! paused, encoding changed). The adapter surfaces errors as [`EngineError`]
//! values and never swallows them.

use vstd::prelude::*;

verus! {

/// A status the engine reports from an operation, decoded from its
/// integer code.
#[derive(Clone, Copy, PartialEq, Eq, Structural, Debug)]
pub enum EngineStatus {
    /// The operation completed.
    Success,
    /// A token must be reprocessed under a new insertion mode; internal to
    /// the engine and not expected to surface past the boundary.
    Reprocess,
    /// The engine restarted with a different charset; a restart signal,
    /// not an error.
    EncodingChange,
    /// Feeding was suspended; resumable.
    Paused,
    /// The engine ran out of memory.
    NoMem,
    /// A malformed parameter was handed to the engine.
    BadParm,
    /// The operation was invalid in the engine's current state.
    Invalid,
    /// A file was not found; not applicable to in-memory feeding.
    FileNotFound,
    /// The engine consumed the chunk and wants the next one.
    NeedData,
    /// The charset hint named an unsupported encoding.
    BadEncoding,
    /// An unclassified engine failure.
    Unknown,
}

/// An error the adapter surfaces to its caller.
#[derive(Clone, Copy, PartialEq, Eq, Structural, Debug)]
pub enum EngineError {
    /// The engine could not allocate; the handle is unusable afterwards.
    NoMemory,
    /// The engine rejected a parameter.
    BadParameter,
    /// The engine rejected the operation in its current state.
    Invalid,
    /// The encoding hint named an unsupported charset.
    BadEncoding,
    /// The engine rejected a configuration option.
    BadOption,
    /// The caller broke the adapter protocol (for example, inserting a chunk
    /// outside a script-injection window); a programmer error.
    ProtocolViolation,
    /// An unclassified engine failure.
    Unknown,
}

/// How confident the engine is in its currently active charset.
#[derive(Clone, Copy, PartialEq, Eq, Structural, Debug)]
pub enum CharsetSource {
    /// No charset information yet.
    Unconfirmed,
    /// A tentative guess that a later restart may override.
    Tentative,
    /// A confident, client- or document-dictated charset.
    Confident,
}

/// The status named by an engine code, if the code belongs to the domain.
pub open spec fn status_of_code(code: i32) -> Option<EngineStatus> {
    if code == 0 {
        Some(EngineStatus::Success)
    } else if code == 1 {
        Some(EngineStatus::Reprocess)
    } else if code == 2 {
        Some(EngineStatus::EncodingChange)
    } else if code == 3 {
        Some(EngineStatus::Paused)
    } else if code == 5 {
        Some(EngineStatus::NoMem)
    } else if code == 6 {
        Some(EngineStatus::BadParm)
    } else if code == 7 {
        Some(EngineStatus::Invalid)
    } else if code == 8 {
        Some(EngineStatus::FileNotFound)
    } else if code == 9 {
        Some(EngineStatus::NeedData)
    } else if code == 10 {
        Some(EngineStatus::BadEncoding)
    } else if code == 11 {
        Some(EngineStatus::Unknown)
    } else {
        None
    }
}

/// The integer code of a status.
pub open spec fn code_of_status(status: EngineStatus) -> i32 {
    match status {
        EngineStatus::Success => 0,
        EngineStatus::Reprocess => 1,
        EngineStatus::EncodingChange => 2,
        EngineStatus::Paused => 3,
        EngineStatus::NoMem => 5,
        EngineStatus::BadParm => 6,
        EngineStatus::Invalid => 7,
        EngineStatus::FileNotFound => 8,
        EngineStatus::NeedData => 9,
        EngineStatus::BadEncoding => 10,
        EngineStatus::Unknown => 11,
    }
}

/// Decodes an engine status code; `None` for a code outside the domain.
pub fn status_from_code(code: i32) -> (status: Option<EngineStatus>)
    ensures
        status == status_of_code(code),
{
    if code == 0 {
        Some(EngineStatus::Success)
    } else if code == 1 {
        Some(EngineStatus::Reprocess)
    } else if code == 2 {
        Some(EngineStatus::EncodingChange)
    } else if code == 3 {
        Some(EngineStatus::Paused)
    } else if code == 5 {
        Some(EngineStatus::NoMem)
    } else if code == 6 {
        Some(EngineStatus::BadParm)
    } else if code == 7 {
        Some(EngineStatus::Invalid)
    } else if code == 8 {
        Some(EngineStatus::FileNotFound)
    } else if code == 9 {
        Some(EngineStatus::NeedData)
    } else if code == 10 {
        Some(EngineStatus::BadEncoding)
    } else if code == 11 {
        Some(EngineStatus::Unknown)
    } else {
        None
    }
}

/// Encodes a status back into its engine code.
pub fn status_code(status: EngineStatus) -> (code: i32)
    ensures
        code == code_of_status(status),
        status_of_code(code) == Some(status),
{
    match status {
        EngineStatus::Success => 0,
        EngineStatus::Reprocess => 1,
        EngineStatus::EncodingChange => 2,
        EngineStatus::Paused => 3,
        EngineStatus::NoMem => 5,
        EngineStatus::BadParm => 6,
        EngineStatus::Invalid => 7,
        EngineStatus::FileNotFound => 8,
        EngineStatus::NeedData => 9,
        EngineStatus::BadEncoding => 10,
        EngineStatus::Unknown => 11,
    }
}

/// The error that a failing status surfaces as, once control signals have
/// been handled. The signal statuses (more data needed, paused, encoding
/// changed) and success are not errors and map to `None`.
pub open spec fn error_of_status(status: EngineStatus) -> Option<EngineError> {
    match status {
        EngineStatus::Success => None,
        EngineStatus::NeedData => None,
        EngineStatus::Paused => None,
        EngineStatus::EncodingChange => None,
        EngineStatus::NoMem => Some(EngineError::NoMemory),
        EngineStatus::BadParm => Some(EngineError::BadParameter),
        EngineStatus::Invalid => Some(EngineError::Invalid),
        EngineStatus::BadEncoding => Some(EngineError::BadEncoding),
        EngineStatus::Reprocess => Some(EngineError::Unknown),
        EngineStatus::FileNotFound => Some(EngineError::Unknown),
        EngineStatus::Unknown => Some(EngineError::Unknown),
    }
}

/// Interprets the status of engine creation: the charset hint may be
/// unsupported, and allocation may fail; anything else unexpected is
/// surfaced, never swallowed.
pub fn creation_status(code: i32) -> (outcome: Result<(), EngineError>)
    ensures
        outcome == (if code == 0 {
            Result::<(), EngineError>::Ok(())
        } else if code == 10 {
            Result::<(), EngineError>::Err(EngineError::BadEncoding)
        } else if code == 5 {
            Result::<(), EngineError>::Err(EngineError::NoMemory)
        } else {
            Result::<(), EngineError>::Err(EngineError::Unknown)
        }),
{
    if code == 0 {
        Ok(())
    } else if code == 10 {
        Err(EngineError::BadEncoding)
    } else if code == 5 {
        Err(EngineError::NoMemory)
    } else {
        Err(EngineError::Unknown)
    }
}

/// Interprets the status of a set-option call: every code other than
/// success means the engine rejected the option or its parameter.
pub fn option_status(code: i32) -> (outcome: Result<(), EngineError>)
    ensures
        outcome == (if code == 0 {
            Result::<(), EngineError>::Ok(())
        } else {
            Result::<(), EngineError>::Err(EngineError::BadOption)
        }),
{
    if code == 0 {
        Ok(())
    } else {
        Err(EngineError::BadOption)
    }
}

/// The charset-confidence classification named by an engine code, if any.
pub open spec fn charset_source_of_code(code: i32) -> Option<CharsetSource> {
    if code == 0 {
        Some(CharsetSource::Unconfirmed)
    } else if code == 1 {
        Some(CharsetSource::Tentative)
    } else if code == 2 {
        Some(CharsetSource::Confident)
    } else {
        None
    }
}

/// Decodes the engine's charset-confidence code; `None` for a code outside
/// the domain.
pub fn charset_source_from_code(code: i32) -> (source: Option<CharsetSource>)
    ensures
        source == charset_source_of_code(code),
{
    if code == 0 {
        Some(CharsetSource::Unconfirmed)
    } else if code == 1 {
        Some(CharsetSource::Tentative)
    } else if code == 2 {
        Some(CharsetSource::Confident)
    } else {
        None
    }
}

} // verus!
