use vstd::prelude::*;
use crate::error::MyError;

verus! {

/// Smallest valid postcode.
pub const POSTCODE_MIN: u32 = 10000;

/// Largest valid postcode.
pub const POSTCODE_MAX: u32 = 99999;

/// Whether `code` is a valid postcode.
pub open spec fn valid_postcode(code: int) -> bool {
    POSTCODE_MIN <= code <= POSTCODE_MAX
}

/// A five-digit postcode, checked on construction.
#[derive(Debug, Clone, Copy, PartialEq, Eq, Structural)]
pub struct Postcode {
    code: u32,
}

impl Postcode {
    /// The postcode as a number.
    pub closed spec fn spec_code(self) -> u32 {
        self.code
    }

    /// Every value of the type holds a valid code.
    #[verifier::type_invariant]
    spec fn wf(self) -> bool {
        valid_postcode(self.code as int)
    }

    pub fn new(code: u32) -> (r: Result<Self, MyError>)
        ensures
            valid_postcode(code as int) <==> r is Ok,
            r matches Ok(p) ==> p.spec_code() == code,
            !valid_postcode(code as int) ==> r == Err::<Self, MyError>(MyError::InvalidPostcode),
    {
        if code > POSTCODE_MAX || code < POSTCODE_MIN {
            return Err(MyError::InvalidPostcode);
        }
        Ok(Postcode { code })
    }

    /// The postcode as a number; always valid.
    pub fn code(&self) -> (r: u32)
        ensures
            r == self.spec_code(),
            valid_postcode(r as int),
    {
        proof {
            use_type_invariant(self);
        }
        self.code
    }

    /// The lookup key under which the grid signal for this postcode is fetched.
    pub fn lookup_key(&self) -> (r: String)
        ensures
            r@ == lookup_key_of(self.spec_code() as nat),
    {
        let code = self.code();
        proof {
            lemma_decimal_five(code as nat);
        }
        let mut key = String::from_str(key_prefix_str());
        key.append(digit_str(code / 10000));
        key.append(digit_str(code / 1000 % 10));
        key.append(digit_str(code / 100 % 10));
        key.append(digit_str(code / 10 % 10));
        key.append(digit_str(code % 10));
        proof {
            assert(key@ =~= lookup_key_of(code as nat));
        }
        key
    }
}

/// A five-digit number is written with exactly its five digits.
proof fn lemma_decimal_five(n: nat)
    requires
        valid_postcode(n as int),
    ensures
        decimal(n) == seq![
            digit_char(n / 10000),
            digit_char(n / 1000 % 10),
            digit_char(n / 100 % 10),
            digit_char(n / 10 % 10),
            digit_char(n % 10),
        ],
{
    let n1 = n / 10;
    let n2 = n1 / 10;
    let n3 = n2 / 10;
    let n4 = n3 / 10;
    assert(n2 == n / 100 && n3 == n / 1000 && n4 == n / 10000 && n1 % 10 == n / 10 % 10);
    assert(1 <= n4 <= 9 && n4 / 10 == 0 && n4 % 10 == n4);
    assert(n3 % 10 == n / 1000 % 10 && n2 % 10 == n / 100 % 10);
    assert(decimal(0) == Seq::<char>::empty());
    assert(decimal(n4) == seq![digit_char(n4)]);
    assert(decimal(n3) == seq![digit_char(n4), digit_char(n3 % 10)]);
    assert(decimal(n2) == seq![digit_char(n4), digit_char(n3 % 10), digit_char(n2 % 10)]);
    assert(decimal(n1) == seq![digit_char(n4), digit_char(n3 % 10), digit_char(n2 % 10), digit_char(n1 % 10)]);
    assert(decimal(n) =~= seq![
        digit_char(n4),
        digit_char(n3 % 10),
        digit_char(n2 % 10),
        digit_char(n1 % 10),
        digit_char(n % 10),
    ]);
}

/// The fixed part of every lookup key.
pub open spec fn key_prefix() -> Seq<char> {
    "https://api.stromgedacht.de/v1/now?zip="@
}

fn key_prefix_str() -> (r: &'static str)
    ensures
        r@ == key_prefix(),
{
    "https://api.stromgedacht.de/v1/now?zip="
}

/// `10` raised to `n`.
pub open spec fn pow10(n: nat) -> int
    decreases n,
{
    if n == 0 { 1 } else { 10 * pow10((n - 1) as nat) }
}

/// The character of the decimal digit `d`.
pub open spec fn digit_char(d: nat) -> char {
    seq!['0', '1', '2', '3', '4', '5', '6', '7', '8', '9'][d as int]
}

/// The decimal digits of `n`, without leading zeros; zero has none.
pub open spec fn decimal(n: nat) -> Seq<char>
    decreases n,
{
    if n == 0 { Seq::empty() } else { decimal(n / 10).push(digit_char(n % 10)) }
}

/// The lookup key for the postcode `code`.
pub open spec fn lookup_key_of(code: nat) -> Seq<char> {
    key_prefix() + decimal(code)
}

/// The one-character string of the decimal digit `d`.
fn digit_str(d: u32) -> (r: &'static str)
    requires
        d < 10,
    ensures
        r@ == seq![digit_char(d as nat)],
{
    proof {
        reveal_strlit("0");
        reveal_strlit("1");
        reveal_strlit("2");
        reveal_strlit("3");
        reveal_strlit("4");
        reveal_strlit("5");
        reveal_strlit("6");
        reveal_strlit("7");
        reveal_strlit("8");
        reveal_strlit("9");
    }
    match d {
        0 => "0",
        1 => "1",
        2 => "2",
        3 => "3",
        4 => "4",
        5 => "5",
        6 => "6",
        7 => "7",
        8 => "8",
        _ => "9",
    }
}

} // verus!
