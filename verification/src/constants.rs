//! The fixed character classes and the set of ambiguous characters.

use vstd::prelude::*;

verus! {

/// Uppercase letters used for password generation.
pub const UPPERCASE: &'static str = "ABCDEFGHIJKLMNOPQRSTUVWXYZ";

/// Lowercase letters used for password generation.
pub const LOWERCASE: &'static str = "abcdefghijklmnopqrstuvwxyz";

/// Digits used for password generation.
pub const DIGITS: &'static str = "0123456789";

/// Special characters used for password generation.
pub const SPECIALS: &'static str = "!@#$%^&*()-_=+[]{}|;:,.<>?/";

/// Characters considered ambiguous and potentially confusing to read.
pub const AMBIGUOUS: &'static str = "Il1O0";

/// Whether `c` is one of the ambiguous characters.
pub open spec fn is_ambiguous(c: char) -> bool {
    AMBIGUOUS@.contains(c)
}

/// The test "`c` is not ambiguous".
pub open spec fn unambiguous() -> spec_fn(char) -> bool {
    |c: char| !is_ambiguous(c)
}

/// `chars` with every ambiguous character taken out, the order kept.
pub open spec fn without_ambiguous(chars: Seq<char>) -> Seq<char> {
    chars.filter(unambiguous())
}

/// The ambiguous characters are exactly `I`, `l`, `1`, `O` and `0`.
pub proof fn lemma_ambiguous_chars()
    ensures
        AMBIGUOUS@ =~= seq!['I', 'l', '1', 'O', '0'],
        forall|c: char|
            #[trigger] is_ambiguous(c) <==> (c == 'I' || c == 'l' || c == '1' || c == 'O' || c
                == '0'),
{
    reveal_strlit("Il1O0");
    let s = AMBIGUOUS@;
    assert(s[0] == 'I' && s[1] == 'l' && s[2] == '1' && s[3] == 'O' && s[4] == '0');
}

/// Every class keeps at least one character when the ambiguous ones are taken out:
/// `A`, `a`, `2` and `!` are members that are not ambiguous.
pub proof fn lemma_classes_keep_a_member()
    ensures
        UPPERCASE@.contains('A') && !is_ambiguous('A'),
        LOWERCASE@.contains('a') && !is_ambiguous('a'),
        DIGITS@.contains('2') && !is_ambiguous('2'),
        SPECIALS@.contains('!') && !is_ambiguous('!'),
{
    lemma_ambiguous_chars();
    reveal_strlit("ABCDEFGHIJKLMNOPQRSTUVWXYZ");
    reveal_strlit("abcdefghijklmnopqrstuvwxyz");
    reveal_strlit("0123456789");
    reveal_strlit("!@#$%^&*()-_=+[]{}|;:,.<>?/");
    assert(UPPERCASE@[0] == 'A');
    assert(LOWERCASE@[0] == 'a');
    assert(DIGITS@[2] == '2');
    assert(SPECIALS@[0] == '!');
}

/// A sequence that holds a character which is not ambiguous is not emptied by the filter.
pub proof fn lemma_member_survives(chars: Seq<char>, c: char)
    requires
        chars.contains(c),
        !is_ambiguous(c),
    ensures
        without_ambiguous(chars).contains(c),
        without_ambiguous(chars).len() > 0,
{
    let i = choose|i: int| 0 <= i < chars.len() && chars[i] == c;
    chars.lemma_filter_contains(unambiguous(), i);
}

} // verus!
