//! Numeric status codes as the host reports them.
use vstd::prelude::*;

use crate::errors::{specific_error, LVInteropError};
use crate::host::MemoryManager;
use crate::mg_error::MgError;

verus! {

/// A host status code: zero is success, any other value a failure.
///
/// No range is checked: a code says nothing of whether the host's catalog
/// knows it.
#[derive(Debug, Clone, Copy, PartialEq, Eq, Structural)]
pub struct LVStatusCode(pub i32);

impl LVStatusCode {
    /// The status of an operation that succeeded.
    pub fn success() -> (r: LVStatusCode)
        ensures
            r.0 == 0,
    {
        LVStatusCode(0)
    }

    /// The raw code.
    pub fn code(&self) -> (r: i32)
        ensures
            r == self.0,
    {
        self.0
    }

    /// `Ok(success_value)` for success; otherwise the richest error the code
    /// names: the catalog's error where the catalog holds the code, else
    /// the code itself, carried as it came.
    pub fn to_specific_result<T>(self, success_value: T) -> (r: core::result::Result<
        T,
        LVInteropError,
    >)
        ensures
            self.0 == 0 ==> r == Ok::<T, LVInteropError>(success_value),
            self.0 != 0 ==> r == Err::<T, LVInteropError>(specific_error(self)),
    {
        if self.0 == 0 {
            Ok(success_value)
        } else {
            match MgError::from_code(self.0) {
                Some(m) => Err(LVInteropError::LabviewMgError(m)),
                None => Err(LVInteropError::LabviewError(self)),
            }
        }
    }

    /// `Ok(success_value)` for success, otherwise the code itself as the
    /// error, whatever its value.
    pub fn to_generic_result<T>(self, success_value: T) -> (r: core::result::Result<
        T,
        LVInteropError,
    >)
        ensures
            self.0 == 0 ==> r == Ok::<T, LVInteropError>(success_value),
            self.0 != 0 ==> r == Err::<T, LVInteropError>(LVInteropError::LabviewError(self)),
    {
        if self.0 == 0 {
            Ok(success_value)
        } else {
            Err(LVInteropError::LabviewError(self))
        }
    }

    /// True for the success code.
    pub fn is_success(&self) -> (r: bool)
        ensures
            r == (self.0 == 0),
    {
        self.0 == 0
    }
}

impl From<i32> for LVStatusCode {
    fn from(value: i32) -> (r: LVStatusCode)
        ensures
            r.0 == value,
    {
        LVStatusCode(value)
    }
}

impl vstd::std_specs::convert::FromSpecImpl<i32> for LVStatusCode {
    open spec fn obeys_from_spec() -> bool {
        true
    }

    open spec fn from_spec(v: i32) -> LVStatusCode {
        LVStatusCode(v)
    }
}

impl From<LVStatusCode> for i32 {
    fn from(status: LVStatusCode) -> (r: i32) {
        status.0
    }
}

impl vstd::std_specs::convert::FromSpecImpl<LVStatusCode> for i32 {
    open spec fn obeys_from_spec() -> bool {
        true
    }

    open spec fn from_spec(status: LVStatusCode) -> i32 {
        status.0
    }
}

/// The character of a decimal digit.
pub open spec fn digit_char(d: int) -> char {
    if d == 0 {
        '0'
    } else if d == 1 {
        '1'
    } else if d == 2 {
        '2'
    } else if d == 3 {
        '3'
    } else if d == 4 {
        '4'
    } else if d == 5 {
        '5'
    } else if d == 6 {
        '6'
    } else if d == 7 {
        '7'
    } else if d == 8 {
        '8'
    } else {
        '9'
    }
}

/// The decimal digits of a natural number, most significant first.
pub open spec fn digits(n: nat) -> Seq<char>
    decreases n,
{
    if n < 10 {
        seq![digit_char(n as int)]
    } else {
        digits(n / 10).push(digit_char((n % 10) as int))
    }
}

/// The decimal text of an integer, with a leading minus sign where it is
/// negative.
pub open spec fn decimal(n: int) -> Seq<char> {
    if n < 0 {
        seq!['-'] + digits((-n) as nat)
    } else {
        digits(n as nat)
    }
}

/// Appends the decimal digits of `n` to `text`.
fn push_digits(text: &mut String, n: u32)
    ensures
        final(text)@ == old(text)@ + digits(n as nat),
    decreases n,
{
    if n >= 10 {
        push_digits(text, n / 10);
    }
    let d = n % 10;
    let digit = if d == 0 {
        "0"
    } else if d == 1 {
        "1"
    } else if d == 2 {
        "2"
    } else if d == 3 {
        "3"
    } else if d == 4 {
        "4"
    } else if d == 5 {
        "5"
    } else if d == 6 {
        "6"
    } else if d == 7 {
        "7"
    } else if d == 8 {
        "8"
    } else {
        "9"
    };
    proof {
        reveal_strlit("0");
        reveal_strlit("1");
        reveal_strlit("2");
        reveal_strlit("3");
        reveal_strlit("4");
        reveal_strlit("5");
        reveal_strlit("6");
        reveal_strlit("7");
        reveal_strlit("8");
        reveal_strlit("9");
        assert(digit@ =~= seq![digit_char(d as int)]);
    }
    text.append(digit);
    proof {
        if n >= 10 {
            assert(digits(n as nat) == digits((n / 10) as nat).push(digit_char(d as int)));
        } else {
            assert(digits(n as nat) == seq![digit_char(d as int)]);
        }
    }
    assert(text@ =~= old(text)@ + digits(n as nat));
}

/// The decimal text of `n`.
pub fn decimal_text(n: i32) -> (r: String)
    ensures
        r@ == decimal(n as int),
{
    let mut text = String::new();
    if n < 0 {
        text.append("-");
        proof {
            reveal_strlit("-");
        }
        let magnitude: u32 = if n == i32::MIN {
            2147483648u32
        } else {
            (-n) as u32
        };
        push_digits(&mut text, magnitude);
        assert(text@ =~= seq!['-'] + digits((-(n as int)) as nat));
    } else {
        push_digits(&mut text, n as u32);
        assert(text@ =~= digits(n as nat));
    }
    text
}

/// The text given where the host cannot describe a code.
pub open spec fn fallback_description() -> Seq<char> {
    "LabVIEW-Interop: Description not retrievable"@
}

impl LVStatusCode {
    /// The host's description of the code: its text where the host's entry
    /// points are available and it has one, else a fixed fallback text.
    pub fn description<M: MemoryManager>(&self, mem: &M) -> (r: String)
        ensures
            mem@.bound && mem.host_error_text(self.0) is Some ==> r@ == mem.host_error_text(
                self.0,
            ).unwrap(),
            !(mem@.bound && mem.host_error_text(self.0) is Some) ==> r@ == fallback_description(),
    {
        if !mem.api_available() {
            return String::from_str("LabVIEW-Interop: Description not retrievable");
        }
        match mem.error_code_description(self.0) {
            Some(text) => text,
            None => String::from_str("LabVIEW-Interop: Description not retrievable"),
        }
    }

    /// The code as text: `LVStatusCode: ` and the decimal code.
    pub fn text(&self) -> (r: String)
        ensures
            r@ == "LVStatusCode: "@ + decimal(self.0 as int),
    {
        let text = String::from_str("LVStatusCode: ");
        let number = decimal_text(self.0);
        text.concat(number.as_str())
    }
}

} // verus!
