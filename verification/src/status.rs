use vstd::prelude::*;

verus! {

/// Result code that the host reports for every operation it performs.
#[derive(Copy, Clone, PartialEq, Eq, Structural, Hash, Debug)]
#[non_exhaustive]
pub enum Status {
    /// The operation completed.
    Success,
    /// The result could not be found, e.g. a provided key did not appear in a table.
    NotFound,
    /// An argument was bad, e.g. did not not conform to the required range.
    BadArgument,
    /// A protobuf could not be serialized.
    SerializationFailure,
    /// A protobuf could not be parsed.
    ParseFailure,
    /// A provided expression (e.g. "foo.bar") was illegal or unrecognized.
    BadExpression,
    /// A provided memory range was not legal.
    InvalidMemoryAccess,
    /// Data was requested from an empty container.
    Empty,
    /// The provided CAS did not match that of the stored data.
    CasMismatch,
    /// Returned result was unexpected, e.g. of the incorrect size.
    ResultMismatch,
    /// Internal failure: trying check logs of the surrounding system.
    InternalFailure,
    /// The connection/stream/pipe was broken/closed unexpectedly.
    BrokenConnection,
    /// Feature not implemented.
    Unimplemented,
}

impl Status {
    /// The number by which the host knows this status.
    pub open spec fn spec_code(self) -> u32 {
        match self {
            Status::Success => 0,
            Status::NotFound => 1,
            Status::BadArgument => 2,
            Status::SerializationFailure => 3,
            Status::ParseFailure => 4,
            Status::BadExpression => 5,
            Status::InvalidMemoryAccess => 6,
            Status::Empty => 7,
            Status::CasMismatch => 8,
            Status::ResultMismatch => 9,
            Status::InternalFailure => 10,
            Status::BrokenConnection => 11,
            Status::Unimplemented => 12,
        }
    }

    /// The number by which the host knows this status.
    pub fn code(self) -> (r: u32)
        ensures
            r == self.spec_code(),
    {
        match self {
            Status::Success => 0,
            Status::NotFound => 1,
            Status::BadArgument => 2,
            Status::SerializationFailure => 3,
            Status::ParseFailure => 4,
            Status::BadExpression => 5,
            Status::InvalidMemoryAccess => 6,
            Status::Empty => 7,
            Status::CasMismatch => 8,
            Status::ResultMismatch => 9,
            Status::InternalFailure => 10,
            Status::BrokenConnection => 11,
            Status::Unimplemented => 12,
        }
    }

    /// The status that the host means by `code`, if it is one this library knows.
    pub fn from_code(code: u32) -> (r: Option<Status>)
        ensures
            match r {
                Some(s) => s.spec_code() == code,
                None => code > 12,
            },
    {
        match code {
            0 => Some(Status::Success),
            1 => Some(Status::NotFound),
            2 => Some(Status::BadArgument),
            3 => Some(Status::SerializationFailure),
            4 => Some(Status::ParseFailure),
            5 => Some(Status::BadExpression),
            6 => Some(Status::InvalidMemoryAccess),
            7 => Some(Status::Empty),
            8 => Some(Status::CasMismatch),
            9 => Some(Status::ResultMismatch),
            10 => Some(Status::InternalFailure),
            11 => Some(Status::BrokenConnection),
            12 => Some(Status::Unimplemented),
            _ => None,
        }
    }
}

/// What became of a host operation that may be left undone: its value, or
/// the default where the host refused.
pub fn log_concern<X: Default>(result: Result<X, Status>) -> (r: X)
    ensures
        result matches Ok(x) ==> r == x,
        result is Err ==> call_ensures(X::default, (), r),
{
    match result {
        Ok(x) => x,
        Err(_) => X::default(),
    }
}

/// What became of a host operation whose failure ends the work at hand:
/// its value, or nothing where the host refused.
pub fn check_concern<X>(result: Result<X, Status>) -> (r: Option<X>)
    ensures
        r == match result {
            Ok(x) => Some(x),
            Err(_) => None::<X>,
        },
{
    match result {
        Ok(x) => Some(x),
        Err(_) => None,
    }
}

} // verus!
