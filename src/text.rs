//! Small string helpers shared by the command parser and the walkers.
use vstd::prelude::*;

verus! {

/// Whether two strings hold the same characters.
pub fn str_eq(a: &str, b: &str) -> (r: bool)
    ensures
        r == (a@ == b@),
{
    let n = a.unicode_len();
    if n != b.unicode_len() {
        return false;
    }
    let mut i: usize = 0;
    while i < n
        invariant
            n == a@.len(),
            n == b@.len(),
            i <= n,
            forall|j: int| 0 <= j < i ==> a@[j] == b@[j],
        decreases n - i,
    {
        if a.get_char(i) != b.get_char(i) {
            return false;
        }
        i += 1;
    }
    assert(a@ =~= b@);
    true
}

/// Copies each of `tokens[from..]` into an owned `String`.
pub fn owned_tail(tokens: &Vec<&str>, from: usize) -> (r: Vec<String>)
    requires
        from <= tokens.len(),
    ensures
        r.len() == tokens.len() - from,
        forall|i: int| 0 <= i < r.len() ==> #[trigger] r[i]@ == tokens[from + i]@,
{
    let mut r: Vec<String> = Vec::new();
    let mut i: usize = from;
    while i < tokens.len()
        invariant
            from <= i <= tokens.len(),
            r.len() == i - from,
            forall|j: int| 0 <= j < r.len() ==> #[trigger] r[j]@ == tokens[from + j]@,
        decreases tokens.len() - i,
    {
        r.push(tokens[i].to_owned());
        i += 1;
    }
    r
}

} // verus!
