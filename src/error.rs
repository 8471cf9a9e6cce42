use vstd::prelude::*;

verus! {

/// Status codes reported by the native vector library (`OGRErr`).
#[derive(Clone, Copy, Debug, PartialEq, Eq, Structural)]
pub enum OgrErr {
    NoError,
    NotEnoughData,
    NotEnoughMemory,
    UnsupportedGeometryType,
    UnsupportedOperation,
    CorruptData,
    Failure,
    UnsupportedSrs,
    InvalidHandle,
    NonExistingFeature,
}

impl OgrErr {
    /// The status that the native code `code` stands for. Codes the library
    /// does not define count as a generic failure.
    pub open spec fn from_code_spec(code: i32) -> OgrErr {
        if code == 0 { OgrErr::NoError }
        else if code == 1 { OgrErr::NotEnoughData }
        else if code == 2 { OgrErr::NotEnoughMemory }
        else if code == 3 { OgrErr::UnsupportedGeometryType }
        else if code == 4 { OgrErr::UnsupportedOperation }
        else if code == 5 { OgrErr::CorruptData }
        else if code == 7 { OgrErr::UnsupportedSrs }
        else if code == 8 { OgrErr::InvalidHandle }
        else if code == 9 { OgrErr::NonExistingFeature }
        else { OgrErr::Failure }
    }

    pub fn from_code(code: i32) -> (r: OgrErr)
        ensures
            r == Self::from_code_spec(code),
    {
        match code {
            0 => OgrErr::NoError,
            1 => OgrErr::NotEnoughData,
            2 => OgrErr::NotEnoughMemory,
            3 => OgrErr::UnsupportedGeometryType,
            4 => OgrErr::UnsupportedOperation,
            5 => OgrErr::CorruptData,
            7 => OgrErr::UnsupportedSrs,
            8 => OgrErr::InvalidHandle,
            9 => OgrErr::NonExistingFeature,
            _ => OgrErr::Failure,
        }
    }
}

/// The native call that reported a status.
#[derive(Clone, Copy, Debug, PartialEq, Eq, Structural)]
pub enum OgrCall {
    SetGeometryDirectly,
    CreateFeature,
    CreateField,
}

impl OgrCall {
    /// Name of the native function, for diagnostics.
    pub fn name(&self) -> (r: &'static str)
        ensures
            r@ == self.name_spec(),
    {
        match self {
            OgrCall::SetGeometryDirectly => "OGR_F_SetGeometryDirectly",
            OgrCall::CreateFeature => "OGR_L_CreateFeature",
            OgrCall::CreateField => "OGR_L_CreateField",
        }
    }

    pub open spec fn name_spec(&self) -> Seq<char> {
        match self {
            OgrCall::SetGeometryDirectly => "OGR_F_SetGeometryDirectly"@,
            OgrCall::CreateFeature => "OGR_L_CreateFeature"@,
            OgrCall::CreateField => "OGR_L_CreateField"@,
        }
    }
}

/// Errors of this library.
#[derive(Clone, Copy, Debug, PartialEq, Eq, Structural)]
pub enum ErrorKind {
    /// A native call reported a status other than success.
    OgrError(OgrErr, OgrCall),
    /// Field names and field values were given in lists of different lengths.
    FieldCountMismatch { names: usize, values: usize },
}

/// Turns the status a native call reported into a result.
pub fn check_status(rv: OgrErr, call: OgrCall) -> (r: Result<(), ErrorKind>)
    ensures
        rv == OgrErr::NoError ==> r == Ok::<(), ErrorKind>(()),
        rv != OgrErr::NoError ==> r == Err::<(), ErrorKind>(ErrorKind::OgrError(rv, call)),
{
    if rv == OgrErr::NoError {
        Ok(())
    } else {
        Err(ErrorKind::OgrError(rv, call))
    }
}

} // verus!
