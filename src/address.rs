//! Parsing a breakpoint address typed by the user: hexadecimal digits, with
//! or without a `0x` prefix.
use vstd::prelude::*;

verus! {

/// The value of hexadecimal digit `c`, or -1 when `c` is not one.
pub open spec fn hex_digit(c: char) -> int {
    if '0' <= c && c <= '9' {
        c as int - '0' as int
    } else if 'a' <= c && c <= 'f' {
        c as int - 'a' as int + 10
    } else if 'A' <= c && c <= 'F' {
        c as int - 'A' as int + 10
    } else {
        -1
    }
}

pub open spec fn all_hex_digits(s: Seq<char>) -> bool {
    forall|i: int| 0 <= i < s.len() ==> hex_digit(#[trigger] s[i]) >= 0
}

/// The number that the hexadecimal digits `s` spell, most significant first.
pub open spec fn hex_number(s: Seq<char>) -> int
    decreases s.len(),
{
    if s.len() == 0 {
        0
    } else {
        hex_number(s.drop_last()) * 16 + hex_digit(s.last())
    }
}

/// `s` without a leading `0x` or `0X`.
pub open spec fn without_prefix(s: Seq<char>) -> Seq<char> {
    if s.len() >= 2 && s[0] == '0' && (s[1] == 'x' || s[1] == 'X') {
        s.subrange(2, s.len() as int)
    } else {
        s
    }
}

/// The digits of an address: after the prefix, a single `+` sign is allowed.
pub open spec fn address_digits(s: Seq<char>) -> Seq<char> {
    let t = without_prefix(s);
    if t.len() >= 1 && t[0] == '+' {
        t.subrange(1, t.len() as int)
    } else {
        t
    }
}

/// The address that `s` denotes, if it denotes one that fits in a `usize`.
pub open spec fn address_of(s: Seq<char>) -> Option<int> {
    let d = address_digits(s);
    if d.len() > 0 && all_hex_digits(d) && hex_number(d) <= usize::MAX {
        Some(hex_number(d))
    } else {
        None
    }
}

proof fn lemma_hex_number_grows(s: Seq<char>, j: int)
    requires
        all_hex_digits(s),
        0 <= j <= s.len(),
    ensures
        0 <= hex_number(s.subrange(0, j)) <= hex_number(s),
    decreases s.len() - j,
{
    if j == s.len() {
        assert(s.subrange(0, j) =~= s);
        lemma_hex_number_nonneg(s);
    } else {
        let p = s.subrange(0, j + 1);
        assert(p.drop_last() =~= s.subrange(0, j));
        lemma_hex_number_nonneg(s.subrange(0, j));
        assert(hex_digit(p.last()) >= 0) by {
            assert(p.last() == s[j]);
        }
        lemma_hex_number_grows(s, j + 1);
    }
}

proof fn lemma_hex_number_nonneg(s: Seq<char>)
    requires
        all_hex_digits(s),
    ensures
        hex_number(s) >= 0,
    decreases s.len(),
{
    if s.len() > 0 {
        assert(all_hex_digits(s.drop_last()));
        lemma_hex_number_nonneg(s.drop_last());
        assert(hex_digit(s[s.len() - 1]) >= 0);
    }
}

/// The value of the hexadecimal digit `c`, if it is one.
fn digit_value(c: char) -> (r: Option<usize>)
    ensures
        hex_digit(c) < 0 <==> r is None,
        r matches Some(v) ==> v as int == hex_digit(c),
{
    if '0' <= c && c <= '9' {
        Some(((c as u32) - ('0' as u32)) as usize)
    } else if 'a' <= c && c <= 'f' {
        Some(((c as u32) - ('a' as u32) + 10) as usize)
    } else if 'A' <= c && c <= 'F' {
        Some(((c as u32) - ('A' as u32) + 10) as usize)
    } else {
        None
    }
}

/// Parses a hexadecimal address, with or without a `0x` prefix.
pub fn parse_address(addr: &str) -> (r: Option<usize>)
    ensures
        r is Some <==> address_of(addr@) is Some,
        r matches Some(v) ==> address_of(addr@) == Some(v as int),
{
    let n = addr.unicode_len();
    let mut i: usize = 0;
    if n >= 2 && addr.get_char(0) == '0' && (addr.get_char(1) == 'x' || addr.get_char(1) == 'X') {
        i = 2;
    }
    let ghost t = without_prefix(addr@);
    assert(t =~= addr@.subrange(i as int, n as int));
    if i < n && addr.get_char(i) == '+' {
        i = i + 1;
    }
    let ghost d = address_digits(addr@);
    assert(d =~= addr@.subrange(i as int, n as int));
    if i == n {
        return None;
    }
    let start = i;
    let mut value: usize = 0;
    while i < n
        invariant
            n == addr@.len(),
            start <= i <= n,
            d == address_digits(addr@),
            d =~= addr@.subrange(start as int, n as int),
            d.len() > 0,
            all_hex_digits(d.subrange(0, i - start)),
            value as int == hex_number(d.subrange(0, i - start)),
        decreases n - i,
    {
        let c = addr.get_char(i);
        let ghost p = d.subrange(0, i - start + 1);
        assert(p.drop_last() =~= d.subrange(0, i - start));
        assert(p.last() == c);
        match digit_value(c) {
            None => {
                assert(!all_hex_digits(d)) by {
                    assert(d[i - start] == c);
                }
                return None;
            },
            Some(v) => {
                assert(all_hex_digits(p));
                match value.checked_mul(16) {
                    None => {
                        proof {
                            assert(hex_number(p) == value * 16 + v);
                            assert(value * 16 > usize::MAX);
                            if all_hex_digits(d) {
                                lemma_hex_number_grows(d, i - start + 1);
                            }
                        }
                        return None;
                    },
                    Some(m) => match m.checked_add(v) {
                        None => {
                            proof {
                                assert(hex_number(p) == value * 16 + v);
                                if all_hex_digits(d) {
                                    lemma_hex_number_grows(d, i - start + 1);
                                }
                            }
                            return None;
                        },
                        Some(s) => {
                            value = s;
                        },
                    },
                }
            },
        }
        i += 1;
    }
    assert(d.subrange(0, i - start) =~= d);
    Some(value)
}

} // verus!
