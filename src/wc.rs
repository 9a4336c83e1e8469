//! Line and word counts of a text, words being the pieces of a line between
//! single spaces.
use vstd::prelude::*;

verus! {

/// The number of spaces in `s`.
pub open spec fn spaces(s: Seq<char>) -> nat
    decreases s.len(),
{
    if s.len() == 0 {
        0
    } else {
        spaces(s.drop_last()) + if s.last() == ' ' {
            1nat
        } else {
            0nat
        }
    }
}

/// The number of words of each line, summed.
pub open spec fn total_words(lines: Seq<Seq<char>>) -> nat
    decreases lines.len(),
{
    if lines.len() == 0 {
        0
    } else {
        total_words(lines.drop_last()) + spaces(lines.last()) + 1
    }
}

proof fn lemma_spaces_bound(s: Seq<char>)
    ensures
        spaces(s) <= s.len(),
    decreases s.len(),
{
    if s.len() > 0 {
        lemma_spaces_bound(s.drop_last());
    }
}

/// The number of pieces that splitting `line` at each space gives: one more
/// than its spaces (an empty line is one empty word).
pub fn count_words(line: &str) -> (r: usize)
    requires
        line@.len() < usize::MAX,
    ensures
        r == spaces(line@) + 1,
{
    let n = line.unicode_len();
    let mut c: usize = 0;
    let mut i: usize = 0;
    while i < n
        invariant
            n == line@.len(),
            n < usize::MAX,
            i <= n,
            c == spaces(line@.take(i as int)),
        decreases n - i,
    {
        proof {
            assert(line@.take(i + 1).drop_last() =~= line@.take(i as int));
            lemma_spaces_bound(line@.take(i as int));
        }
        if line.get_char(i) == ' ' {
            c += 1;
        }
        i += 1;
    }
    assert(line@.take(n as int) =~= line@);
    proof {
        lemma_spaces_bound(line@);
    }
    c + 1
}

/// The number of lines and the number of words, the word count saturating
/// at `usize::MAX`.
pub fn wc_counts(lines: &Vec<String>) -> (r: (usize, usize))
    requires
        forall|i: int| 0 <= i < lines.len() ==> (#[trigger] lines[i])@.len() < usize::MAX,
    ensures
        r.0 == lines.len(),
        r.1 == if total_words(lines@.map_values(|l: String| l@)) <= usize::MAX {
            total_words(lines@.map_values(|l: String| l@))
        } else {
            usize::MAX as nat
        },
{
    let ghost views = lines@.map_values(|l: String| l@);
    let mut words: usize = 0;
    let mut i: usize = 0;
    while i < lines.len()
        invariant
            i <= lines.len(),
            views == lines@.map_values(|l: String| l@),
            forall|j: int| 0 <= j < lines.len() ==> (#[trigger] lines[j])@.len() < usize::MAX,
            words == if total_words(views.take(i as int)) <= usize::MAX {
                total_words(views.take(i as int))
            } else {
                usize::MAX as nat
            },
        decreases lines.len() - i,
    {
        let w = count_words(lines[i].as_str());
        proof {
            assert(views.take(i + 1).drop_last() =~= views.take(i as int));
            assert(views.take(i + 1).last() == lines[i as int]@);
        }
        words = words.saturating_add(w);
        i += 1;
    }
    assert(views.take(i as int) =~= views);
    (lines.len(), words)
}

} // verus!
