//! Failures of the drawing device, told apart by what the session does about
//! them: one code means that the render target is stale and must be rebuilt,
//! every other code is handed on to the caller.

use vstd::prelude::*;

verus! {

#[verifier::external_type_specification]
#[verifier::external_body]
pub struct ExError(windows_core::Error);

/// The code with which the device reports a stale render target
/// (0x8899000C as a signed 32-bit number).
pub open spec fn recreate_target() -> i32 {
    -2003238900i32
}

/// A failure of the drawing device.
#[derive(Clone, Copy, Debug, PartialEq, Eq, Structural)]
pub enum DeviceError {
    /// The render target is stale: discard the device resources and build
    /// them again before the next frame.
    RecreateTarget,
    /// Any other failure, with the code that the device gave.
    Other(i32),
}

/// The failure code that an error of the host holds. An error is made with
/// its code and keeps it unchanged; Verus cannot look inside the error, so the
/// code has this name and no definition.
pub uninterp spec fn code_in(error: windows_core::Error) -> i32;

/// Reads the failure code of `error`: what `windows_core::Error::code`
/// returns for it, taken out of the `HRESULT`. That method hands out the code
/// that the error holds and does nothing else, so the contract claims that
/// the result is `code_in` of the error.
#[verifier::external_body]
fn code_of(error: &windows_core::Error) -> (code: i32)
    ensures
        code == code_in(*error),
{
    error.code().0
}

/// The constant `windows::Win32::Foundation::D2DERR_RECREATE_TARGET`, taken
/// out of the `HRESULT`. The bindings define it as -2003238900.
#[verifier::external_body]
fn recreate_target_code() -> (code: i32)
    ensures
        code == recreate_target(),
{
    windows::Win32::Foundation::D2DERR_RECREATE_TARGET.0
}

impl DeviceError {
    /// The failure that a code stands for.
    pub open spec fn classify(code: i32) -> DeviceError {
        if code == recreate_target() {
            DeviceError::RecreateTarget
        } else {
            DeviceError::Other(code)
        }
    }

    /// The code that this failure stands for.
    pub open spec fn code_spec(&self) -> i32 {
        match *self {
            DeviceError::RecreateTarget => recreate_target(),
            DeviceError::Other(code) => code,
        }
    }

    /// Whether this is the failure that `classify` gives for its code: an
    /// `Other` never holds the code of a stale render target.
    pub open spec fn well_formed(&self) -> bool {
        DeviceError::classify(self.code_spec()) == *self
    }

    /// Tells the failure that a code of the device stands for.
    pub fn from_code(code: i32) -> (error: DeviceError)
        ensures
            error == DeviceError::classify(code),
            error.code_spec() == code,
    {
        if code == recreate_target_code() {
            DeviceError::RecreateTarget
        } else {
            DeviceError::Other(code)
        }
    }

    /// Tells the failure that an error of the host stands for, by its code
    /// alone: the classification of the code that the error holds. Whatever
    /// else the error carries, such as a message, is left behind.
    pub fn from_error(error: &windows_core::Error) -> (failure: DeviceError)
        ensures
            failure == DeviceError::classify(code_in(*error)),
            failure.code_spec() == code_in(*error),
            failure.well_formed(),
    {
        DeviceError::from_code(code_of(error))
    }

    /// The code that this failure stands for.
    #[verifier::when_used_as_spec(code_spec)]
    pub fn code(&self) -> (code: i32)
        ensures
            code == self.code_spec(),
    {
        match self {
            DeviceError::RecreateTarget => recreate_target_code(),
            DeviceError::Other(code) => *code,
        }
    }

    /// Whether the session recovers from this failure by itself.
    pub fn is_recoverable(&self) -> (recoverable: bool)
        ensures
            recoverable == (*self == DeviceError::RecreateTarget),
    {
        match self {
            DeviceError::RecreateTarget => true,
            DeviceError::Other(_) => false,
        }
    }
}

/// Classifying a code and reading the code back gives the code again, and a
/// code is classified as a stale render target exactly if it is that one code.
pub proof fn lemma_classify_code(code: i32)
    ensures
        DeviceError::classify(code).code_spec() == code,
        DeviceError::classify(code).well_formed(),
        DeviceError::classify(code) == DeviceError::RecreateTarget <==> code == recreate_target(),
{
}

} // verus!
