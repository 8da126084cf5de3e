//! String helpers: comparisons against fixed names and the fixed-width
//! hexadecimal rendering used for frames whose symbol could not be resolved.

use vstd::prelude::*;
use vstd::string::*;

verus! {

/// The characters of `needle` occur as a contiguous run inside `haystack`.
pub open spec fn seq_contains_sub(haystack: Seq<char>, needle: Seq<char>) -> bool {
    exists|i: int|
        0 <= i && i + needle.len() <= haystack.len() && #[trigger] haystack.subrange(
            i,
            i + needle.len(),
        ) == needle
}

/// Relies on str's `PartialEq`: two string slices are equal exactly when
/// their character sequences are.
#[verifier::external_body]
pub fn str_eq(a: &str, b: &str) -> (r: bool)
    ensures
        r == (a@ == b@),
{
    a == b
}

/// Relies on `str::starts_with`: true exactly when the pattern's characters
/// are a prefix of the slice's.
#[verifier::external_body]
pub fn str_starts_with(s: &str, prefix: &str) -> (r: bool)
    ensures
        r == prefix@.is_prefix_of(s@),
{
    s.starts_with(prefix)
}

/// Relies on `str::contains`: true exactly when the pattern's characters
/// occur as a contiguous run within the slice.
#[verifier::external_body]
pub fn str_contains(s: &str, pattern: &str) -> (r: bool)
    ensures
        r == seq_contains_sub(s@, pattern@),
{
    s.contains(pattern)
}

/// The hexadecimal digit for a nibble value.
pub open spec fn hex_digit_char(n: int) -> char {
    if n == 0 {
        '0'
    } else if n == 1 {
        '1'
    } else if n == 2 {
        '2'
    } else if n == 3 {
        '3'
    } else if n == 4 {
        '4'
    } else if n == 5 {
        '5'
    } else if n == 6 {
        '6'
    } else if n == 7 {
        '7'
    } else if n == 8 {
        '8'
    } else if n == 9 {
        '9'
    } else if n == 10 {
        'a'
    } else if n == 11 {
        'b'
    } else if n == 12 {
        'c'
    } else if n == 13 {
        'd'
    } else if n == 14 {
        'e'
    } else {
        'f'
    }
}

/// The `i`-th nibble of `addr`, counted from the most significant.
pub open spec fn spec_nibble(addr: u64, i: int) -> int {
    ((addr >> ((4 * (15 - i)) as u64)) & 0xf) as int
}

/// The sixteen hexadecimal digits of `addr`, most significant first.
pub open spec fn spec_hex_digits(addr: u64) -> Seq<char> {
    Seq::new(16, |i: int| hex_digit_char(spec_nibble(addr, i)))
}

/// `addr` rendered as "0x" followed by sixteen hexadecimal digits.
pub open spec fn spec_hex_address(addr: u64) -> Seq<char> {
    seq!['0', 'x'] + spec_hex_digits(addr)
}

fn hex_digit_str(n: u64) -> (r: &'static str)
    requires
        n < 16,
    ensures
        r@ == seq![hex_digit_char(n as int)],
{
    let r: &'static str = match n {
        0 => "0",
        1 => "1",
        2 => "2",
        3 => "3",
        4 => "4",
        5 => "5",
        6 => "6",
        7 => "7",
        8 => "8",
        9 => "9",
        10 => "a",
        11 => "b",
        12 => "c",
        13 => "d",
        14 => "e",
        _ => "f",
    };
    proof {
        reveal_strlit("0");
        reveal_strlit("1");
        reveal_strlit("2");
        reveal_strlit("3");
        reveal_strlit("4");
        reveal_strlit("5");
        reveal_strlit("6");
        reveal_strlit("7");
        reveal_strlit("8");
        reveal_strlit("9");
        reveal_strlit("a");
        reveal_strlit("b");
        reveal_strlit("c");
        reveal_strlit("d");
        reveal_strlit("e");
        reveal_strlit("f");
        assert(r@ =~= seq![hex_digit_char(n as int)]);
    }
    r
}

/// Renders `addr` exactly as `spec_hex_address` describes: "0x" and sixteen
/// hexadecimal digits, most significant first.
pub fn hex_address(addr: u64) -> (r: String)
    ensures
        r@ == spec_hex_address(addr),
{
    let mut s = String::from_str("0x");
    proof {
        reveal_strlit("0x");
        assert(s@ =~= seq!['0', 'x']);
        assert(s@ =~= seq!['0', 'x'] + spec_hex_digits(addr).take(0));
    }
    let mut i: usize = 0;
    while i < 16
        invariant
            i <= 16,
            s@ == seq!['0', 'x'] + spec_hex_digits(addr).take(i as int),
        decreases 16 - i,
    {
        let shift: u64 = 4 * (15 - (i as u64));
        let nib: u64 = (addr >> shift) & 0xf;
        proof {
            assert((addr >> shift) & 0xf < 16) by (bit_vector);
        }
        let d = hex_digit_str(nib);
        s.append(d);
        proof {
            assert(nib as int == spec_nibble(addr, i as int));
            assert(spec_hex_digits(addr).take(i + 1) =~= spec_hex_digits(addr).take(i as int)
                + seq![hex_digit_char(spec_nibble(addr, i as int))]);
            assert(s@ =~= seq!['0', 'x'] + spec_hex_digits(addr).take(i + 1));
        }
        i = i + 1;
    }
    proof {
        assert(spec_hex_digits(addr).take(16) =~= spec_hex_digits(addr));
    }
    s
}

} // verus!
