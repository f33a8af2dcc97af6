//! Status codes of the driver and their translation into results.
use vstd::prelude::*;
use vstd::string::StringExecFns;

verus! {

/// The status with which the driver reports success.
pub const FT_OK: u32 = 0;

/// The status with which the driver rejects a handle that names no open device.
pub const FT_INVALID_HANDLE: u32 = 1;

/// The status with which the driver reports that a device could not be opened.
pub const FT_DEVICE_NOT_OPENED: u32 = 3;

/// A failure of a driver call: the raw status, kept as the driver gave it.
#[derive(Debug, Clone, Copy, PartialEq, Eq)]
pub struct FTError {
    pub status: u32,
}

/// The result that stands for a raw status: success for `FT_OK`, and for any
/// other status a failure that carries it.
pub open spec fn status_result(status: u32) -> Result<(), FTError> {
    if status == FT_OK {
        Ok(())
    } else {
        Err(FTError { status })
    }
}

/// The character of one decimal digit.
pub open spec fn decimal_digit(d: nat) -> char {
    if d == 0 {
        '0'
    } else if d == 1 {
        '1'
    } else if d == 2 {
        '2'
    } else if d == 3 {
        '3'
    } else if d == 4 {
        '4'
    } else if d == 5 {
        '5'
    } else if d == 6 {
        '6'
    } else if d == 7 {
        '7'
    } else if d == 8 {
        '8'
    } else {
        '9'
    }
}

/// The decimal numeral of `n`, without leading zeros.
pub open spec fn decimal(n: nat) -> Seq<char>
    decreases n,
{
    if n < 10 {
        seq![decimal_digit(n)]
    } else {
        decimal(n / 10).push(decimal_digit(n % 10))
    }
}

/// The text shown for a failure with the given status.
pub open spec fn status_message(status: u32) -> Seq<char> {
    "STATUS: "@ + decimal(status as nat)
}

fn digit_str(d: u32) -> (s: &'static str)
    requires
        d < 10,
    ensures
        s@ == seq![decimal_digit(d as nat)],
{
    proof {
        reveal_strlit("0");
        reveal_strlit("1");
        reveal_strlit("2");
        reveal_strlit("3");
        reveal_strlit("4");
        reveal_strlit("5");
        reveal_strlit("6");
        reveal_strlit("7");
        reveal_strlit("8");
        reveal_strlit("9");
    }
    if d == 0 {
        "0"
    } else if d == 1 {
        "1"
    } else if d == 2 {
        "2"
    } else if d == 3 {
        "3"
    } else if d == 4 {
        "4"
    } else if d == 5 {
        "5"
    } else if d == 6 {
        "6"
    } else if d == 7 {
        "7"
    } else if d == 8 {
        "8"
    } else {
        "9"
    }
}

fn push_decimal(out: &mut String, n: u32)
    ensures
        final(out)@ == old(out)@ + decimal(n as nat),
    decreases n,
{
    if n >= 10 {
        push_decimal(out, n / 10);
    }
    out.append(digit_str(n % 10));
}

impl FTError {
    /// The failure that a raw status stands for, if it stands for one.
    pub fn from_raw(status: u32) -> (r: Option<FTError>)
        ensures
            status == FT_OK ==> r is None,
            status != FT_OK ==> r == Some(FTError { status }),
    {
        if status == FT_OK {
            None
        } else {
            Some(FTError { status })
        }
    }

    /// The raw status of this failure.
    pub fn raw(&self) -> (r: u32)
        ensures
            r == self.status,
    {
        self.status
    }

    /// The text `STATUS: ` followed by the raw status in decimal.
    pub fn to_string(&self) -> (s: String)
        ensures
            s@ == status_message(self.status),
    {
        let mut s = String::from_str("STATUS: ");
        push_decimal(&mut s, self.status);
        s
    }
}

/// Translates the status of a driver call: success if the driver answered
/// `FT_OK`, otherwise the failure that carries the status.
pub fn status_to_result(status: u32) -> (r: Result<(), FTError>)
    ensures
        r == status_result(status),
{
    match FTError::from_raw(status) {
        None => Ok(()),
        Some(err) => Err(err),
    }
}

} // verus!
