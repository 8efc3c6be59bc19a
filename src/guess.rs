//! A number that is known to lie in a closed range.

use vstd::prelude::*;
use vstd::string::*;

verus! {

/// Smallest value a `Guess` may hold.
pub const GUESS_MIN: u32 = 1;

/// Largest value a `Guess` may hold.
pub const GUESS_MAX: u32 = 100;

/// `n` lies in `[GUESS_MIN, GUESS_MAX]`, both ends included.
pub open spec fn in_range(n: int) -> bool {
    GUESS_MIN <= n <= GUESS_MAX
}

/// The character of a decimal digit.
pub open spec fn digit_char(d: nat) -> char {
    seq!['0', '1', '2', '3', '4', '5', '6', '7', '8', '9'][d as int]
}

/// `n` written in base ten, without leading zeros.
pub open spec fn decimal(n: nat) -> Seq<char>
    decreases n,
{
    if n < 10 {
        seq![digit_char(n)]
    } else {
        decimal(n / 10).push(digit_char(n % 10))
    }
}

/// Why a number was refused, with the number itself.
#[derive(Debug, Clone, Copy, PartialEq, Eq, Structural)]
pub enum OutOfRange {
    /// Above `GUESS_MAX`.
    TooBig(u32),
    /// Below `GUESS_MIN`.
    TooSmall(u32),
}

/// The error that refuses `n`, for `n` out of range.
pub open spec fn out_of_range(n: u32) -> OutOfRange {
    if n > GUESS_MAX {
        OutOfRange::TooBig(n)
    } else {
        OutOfRange::TooSmall(n)
    }
}

/// Relies on `u32`'s `Display` through `to_string`: base ten, no leading zeros.
#[verifier::external_body]
fn decimal_string(n: u32) -> (r: String)
    ensures
        r@ == decimal(n as nat),
{
    n.to_string()
}

impl OutOfRange {
    /// The number that was refused.
    pub open spec fn spec_value(self) -> u32 {
        match self {
            OutOfRange::TooBig(n) => n,
            OutOfRange::TooSmall(n) => n,
        }
    }

    /// The text that describes the error: which bound was crossed, then the number.
    pub open spec fn message_spec(self) -> Seq<char> {
        match self {
            OutOfRange::TooBig(n) => "too big number: "@ + decimal(n as nat),
            OutOfRange::TooSmall(n) => "too small number: "@ + decimal(n as nat),
        }
    }

    /// The number that was refused.
    pub fn value(&self) -> (r: u32)
        ensures
            r == self.spec_value(),
    {
        match self {
            OutOfRange::TooBig(n) => *n,
            OutOfRange::TooSmall(n) => *n,
        }
    }

    /// Describes the error, e.g. `too big number: 199`.
    pub fn message(&self) -> (r: String)
        ensures
            r@ == self.message_spec(),
    {
        let (mut s, n) = match self {
            OutOfRange::TooBig(n) => (String::from_str("too big number: "), *n),
            OutOfRange::TooSmall(n) => (String::from_str("too small number: "), *n),
        };
        let digits = decimal_string(n);
        s.append(digits.as_str());
        s
    }
}

/// A number in `[GUESS_MIN, GUESS_MAX]`. It can only be made through a
/// constructor that checks the range, and it never changes afterwards.
pub struct Guess {
    value: u32,
}

impl View for Guess {
    type V = u32;

    closed spec fn view(&self) -> u32 {
        self.value
    }
}

impl Guess {
    #[verifier::type_invariant]
    spec fn wf(self) -> bool {
        in_range(self.value as int)
    }

    /// Wraps `num`, which the caller knows to be in range.
    pub fn new(num: u32) -> (r: Guess)
        requires
            in_range(num as int),
        ensures
            r@ == num,
    {
        Guess { value: num }
    }

    /// Wraps `num` if it is in range; otherwise says which bound it crossed.
    pub fn try_new(num: u32) -> (r: Result<Guess, OutOfRange>)
        ensures
            r is Ok <==> in_range(num as int),
            r matches Ok(g) ==> g@ == num,
            r matches Err(e) ==> e == out_of_range(num),
    {
        if num > GUESS_MAX {
            Err(OutOfRange::TooBig(num))
        } else if num < GUESS_MIN {
            Err(OutOfRange::TooSmall(num))
        } else {
            Ok(Guess { value: num })
        }
    }

    /// The wrapped number.
    pub fn value(&self) -> (r: u32)
        ensures
            r == self@,
            in_range(r as int),
    {
        proof {
            use_type_invariant(self);
        }
        self.value
    }
}

/// A number above `GUESS_MAX` is refused as too big, and the message names it.
pub proof fn lemma_too_big_refused(n: u32)
    requires
        n > GUESS_MAX,
    ensures
        !in_range(n as int),
        out_of_range(n) == OutOfRange::TooBig(n),
        out_of_range(n).message_spec() == "too big number: "@ + decimal(n as nat),
{
}

/// A number below `GUESS_MIN` is refused as too small, and the message names it.
pub proof fn lemma_too_small_refused(n: u32)
    requires
        n < GUESS_MIN,
    ensures
        !in_range(n as int),
        out_of_range(n) == OutOfRange::TooSmall(n),
        out_of_range(n).message_spec() == "too small number: "@ + decimal(n as nat),
{
}

} // verus!
