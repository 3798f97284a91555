use vstd::prelude::*;

verus! {

/// The failures of the library's own logic.
#[derive(Debug, Clone, Copy, PartialEq, Eq, Structural)]
pub enum MyError {
    /// The fetch succeeded but handed back no bytes.
    InvalidData,
    /// A postcode outside `10000..=99999`.
    InvalidPostcode,
    /// The bytes were not a status record.
    Decode,
}

/// The variant's name.
pub open spec fn error_name(e: MyError) -> Seq<char> {
    match e {
        MyError::InvalidData => "InvalidData"@,
        MyError::InvalidPostcode => "InvalidPostcode"@,
        MyError::Decode => "Decode"@,
    }
}

/// The code under which a failure crosses the foreign boundary; zero is
/// success.
pub open spec fn error_code(e: MyError) -> u32 {
    match e {
        MyError::InvalidData => 1,
        MyError::InvalidPostcode => 2,
        MyError::Decode => 3,
    }
}

/// The boundary code of a failed fetch.
pub const FETCH_FAILED_CODE: u32 = 4;

/// The boundary code of an invocation on an instance that is not active.
pub const NOT_ACTIVE_CODE: u32 = 5;

impl MyError {
    /// The variant's name, for messages.
    pub fn name(&self) -> (r: &'static str)
        ensures
            r@ == error_name(*self),
    {
        match self {
            MyError::InvalidData => "InvalidData",
            MyError::InvalidPostcode => "InvalidPostcode",
            MyError::Decode => "Decode",
        }
    }

    /// The code under which this failure crosses the foreign boundary.
    pub fn code(&self) -> (r: u32)
        ensures
            r == error_code(*self),
            r != 0 && r != FETCH_FAILED_CODE && r != NOT_ACTIVE_CODE,
    {
        match self {
            MyError::InvalidData => 1,
            MyError::InvalidPostcode => 2,
            MyError::Decode => 3,
        }
    }
}

} // verus!
