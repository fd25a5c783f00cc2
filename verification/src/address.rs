//! Building the HTTP address that a connection is opened against:
//! the scheme, the host and the port rendered in decimal, concatenated
//! verbatim with no escaping or encoding.

use vstd::prelude::*;
use vstd::string::StringExecFns;

verus! {

/// The character for a single decimal digit.
pub open spec fn spec_digit(n: nat) -> char {
    if n == 0 {
        '0'
    } else if n == 1 {
        '1'
    } else if n == 2 {
        '2'
    } else if n == 3 {
        '3'
    } else if n == 4 {
        '4'
    } else if n == 5 {
        '5'
    } else if n == 6 {
        '6'
    } else if n == 7 {
        '7'
    } else if n == 8 {
        '8'
    } else {
        '9'
    }
}

/// The decimal rendering of a number, most significant digit first,
/// with no leading zeros (zero itself renders as "0").
pub open spec fn spec_decimal(n: nat) -> Seq<char>
    decreases n,
{
    if n < 10 {
        seq![spec_digit(n)]
    } else {
        spec_decimal(n / 10).push(spec_digit(n % 10))
    }
}

/// The address a config with this host and port connects to:
/// `http://{host}:{port}` with the port in decimal.
pub open spec fn spec_address(host: Seq<char>, port: u16) -> Seq<char> {
    "http://"@ + host + ":"@ + spec_decimal(port as nat)
}

/// The one-character string for a decimal digit.
fn digit_str(d: u8) -> (r: &'static str)
    requires
        d < 10,
    ensures
        r@ == seq![spec_digit(d as nat)],
{
    proof {
        reveal_strlit("0");
        reveal_strlit("1");
        reveal_strlit("2");
        reveal_strlit("3");
        reveal_strlit("4");
        reveal_strlit("5");
        reveal_strlit("6");
        reveal_strlit("7");
        reveal_strlit("8");
        reveal_strlit("9");
    }
    let r: &'static str = match d {
        0 => "0",
        1 => "1",
        2 => "2",
        3 => "3",
        4 => "4",
        5 => "5",
        6 => "6",
        7 => "7",
        8 => "8",
        _ => "9",
    };
    proof {
        assert(r@ =~= seq![spec_digit(d as nat)]);
    }
    r
}

/// The digits of `ds`, taken last to first, as characters.
spec fn digits_reversed(ds: Seq<u8>) -> Seq<char> {
    Seq::new(ds.len(), |i: int| spec_digit(ds[ds.len() - 1 - i] as nat))
}

proof fn lemma_digits_reversed_push(ds: Seq<u8>, d: u8)
    ensures
        digits_reversed(ds.push(d)) =~= seq![spec_digit(d as nat)] + digits_reversed(ds),
{
}

/// Appends the decimal rendering of `n` to `s`.
fn push_decimal(s: &mut String, n: u16)
    ensures
        final(s)@ == old(s)@ + spec_decimal(n as nat),
{
    let ghost orig: Seq<char> = s@;
    let mut digits: Vec<u8> = Vec::new();
    digits.push((n % 10) as u8);
    proof {
        lemma_digits_reversed_push(Seq::<u8>::empty(), (n % 10) as u8);
    }
    let mut m: u16 = n / 10;
    while m > 0
        invariant
            forall|j: int| 0 <= j < digits@.len() ==> digits@[j] < 10,
            digits@.len() >= 1,
            m > 0 ==> spec_decimal(n as nat) =~= spec_decimal(m as nat) + digits_reversed(
                digits@,
            ),
            m == 0 ==> spec_decimal(n as nat) =~= digits_reversed(digits@),
        decreases m,
    {
        let ghost before: Seq<u8> = digits@;
        let d: u8 = (m % 10) as u8;
        digits.push(d);
        proof {
            lemma_digits_reversed_push(before, d);
        }
        m = m / 10;
        proof {
            if m > 0 {
                assert(spec_decimal(n as nat) =~= spec_decimal(m as nat) + digits_reversed(
                    digits@,
                ));
            } else {
                assert(spec_decimal(n as nat) =~= digits_reversed(digits@));
            }
        }
    }
    let mut i: usize = digits.len();
    while i > 0
        invariant
            i <= digits@.len(),
            forall|j: int| 0 <= j < digits@.len() ==> digits@[j] < 10,
            spec_decimal(n as nat) =~= digits_reversed(digits@),
            s@ =~= orig + digits_reversed(digits@.skip(i as int)),
        decreases i,
    {
        let d: u8 = digits[i - 1];
        let piece: &'static str = digit_str(d);
        s.append(piece);
        i = i - 1;
        proof {
            assert(digits_reversed(digits@.skip(i as int)) =~= digits_reversed(
                digits@.skip(i as int + 1),
            ) + seq![spec_digit(digits@[i as int] as nat)]);
            assert(s@ =~= orig + digits_reversed(digits@.skip(i as int)));
        }
    }
    proof {
        assert(digits@.skip(0) =~= digits@);
        assert(s@ =~= orig + spec_decimal(n as nat));
    }
}

/// Builds `http://{host}:{port}`, the host concatenated verbatim.
pub fn format_address(host: &str, port: u16) -> (r: String)
    ensures
        r@ == spec_address(host@, port),
{
    let mut s: String = String::from_str("http://");
    s.append(host);
    s.append(":");
    push_decimal(&mut s, port);
    proof {
        assert(s@ =~= spec_address(host@, port));
    }
    s
}

} // verus!
