//! The guessing rule of a word-guessing game: a correct guess uncovers one
//! hidden occurrence of the letter.
use vstd::prelude::*;

verus! {

/// The mark of a letter not yet uncovered.
pub const HIDDEN: char = '-';

/// Position `i` holds `c` in the secret and is still hidden.
pub open spec fn uncoverable(secret: Seq<char>, so_far: Seq<char>, c: char, i: int) -> bool {
    secret[i] == c && so_far[i] == HIDDEN
}

/// Uncovers the first hidden occurrence of `input_char` in the secret word:
/// marks it in `so_far_word_chars`, records the guess in
/// `guessed_word_chars`, and returns `true`. Returns `false`, changing
/// nothing, when no hidden occurrence is left.
pub fn find_and_replace_char(
    secret_word_chars: &Vec<char>,
    guessed_word_chars: &mut Vec<char>,
    so_far_word_chars: &mut Vec<char>,
    input_char: char,
) -> (r: bool)
    requires
        old(so_far_word_chars).len() == secret_word_chars.len(),
    ensures
        r == exists|i: int|
            0 <= i < secret_word_chars.len() && uncoverable(
                secret_word_chars@,
                old(so_far_word_chars)@,
                input_char,
                i,
            ),
        r ==> exists|i: int|
            0 <= i < secret_word_chars.len() && uncoverable(
                secret_word_chars@,
                old(so_far_word_chars)@,
                input_char,
                i,
            ) && (forall|j: int|
                0 <= j < i ==> !uncoverable(
                    secret_word_chars@,
                    old(so_far_word_chars)@,
                    input_char,
                    j,
                )) && final(so_far_word_chars)@ == old(so_far_word_chars)@.update(i, input_char),
        r ==> final(guessed_word_chars)@ == old(guessed_word_chars)@.push(input_char),
        !r ==> final(so_far_word_chars)@ == old(so_far_word_chars)@ && final(guessed_word_chars)@
            == old(guessed_word_chars)@,
{
    let mut i: usize = 0;
    while i < secret_word_chars.len()
        invariant
            i <= secret_word_chars.len(),
            so_far_word_chars@ == old(so_far_word_chars)@,
            guessed_word_chars@ == old(guessed_word_chars)@,
            so_far_word_chars.len() == secret_word_chars.len(),
            forall|j: int|
                0 <= j < i ==> !uncoverable(secret_word_chars@, so_far_word_chars@, input_char, j),
        decreases secret_word_chars.len() - i,
    {
        let c = secret_word_chars[i];
        if c == input_char {
            if so_far_word_chars[i] == HIDDEN {
                assert(uncoverable(secret_word_chars@, old(so_far_word_chars)@, input_char, i as int));
                so_far_word_chars.set(i, c);
                guessed_word_chars.push(input_char);
                return true;
            }
        }
        i += 1;
    }
    false
}

} // verus!
