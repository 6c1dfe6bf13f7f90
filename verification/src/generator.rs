//! The generator: from a configuration to a password, or to the reason why
//! none can be made.

use vstd::prelude::*;

use crate::constants::{
    is_ambiguous, lemma_classes_keep_a_member, lemma_member_survives, unambiguous,
    without_ambiguous, AMBIGUOUS, DIGITS, LOWERCASE, SPECIALS, UPPERCASE,
};
use crate::counting::{
    all_from, count_of, lemma_count_of_all_from, lemma_count_of_concat, lemma_reordered,
};
use crate::error::VaultKeyError;
use crate::options::{class_if, PasswordOptions};
use crate::random::{random_index, shuffle, string_from_chars, thread_rng};
use rand::rngs::ThreadRng;

verus! {

/// The smallest length that a password may be asked to have.
pub const MIN_LENGTH: usize = 5;

/// Tells whether `c` is one of the ambiguous characters.
pub fn is_ambiguous_char(c: char) -> (found: bool)
    ensures
        found == is_ambiguous(c),
{
    let n = AMBIGUOUS.unicode_len();
    let mut i: usize = 0;
    while i < n
        invariant
            n == AMBIGUOUS@.len(),
            i <= n,
            forall|j: int| 0 <= j < i ==> AMBIGUOUS@[j] != c,
        decreases n - i,
    {
        if AMBIGUOUS.get_char(i) == c {
            return true;
        }
        i += 1;
    }
    false
}

/// Appends the characters of `chars` to `out`, in their order.
pub fn push_chars(out: &mut Vec<char>, chars: &str)
    ensures
        final(out)@ == old(out)@ + chars@,
{
    let n = chars.unicode_len();
    let mut i: usize = 0;
    while i < n
        invariant
            n == chars@.len(),
            i <= n,
            out@ == old(out)@ + chars@.take(i as int),
        decreases n - i,
    {
        out.push(chars.get_char(i));
        i += 1;
    }
}

/// Copies `chars` without its ambiguous characters.
pub fn remove_ambiguous(chars: &Vec<char>) -> (kept: Vec<char>)
    ensures
        kept@ == without_ambiguous(chars@),
{
    let mut kept: Vec<char> = Vec::new();
    let mut i: usize = 0;
    proof {
        reveal(Seq::filter);
        assert(chars@.take(0) =~= Seq::<char>::empty());
    }
    while i < chars.len()
        invariant
            i <= chars.len(),
            kept@ == without_ambiguous(chars@.take(i as int)),
        decreases chars.len() - i,
    {
        let c = chars[i];
        proof {
            assert(chars@.take(i + 1) =~= chars@.take(i as int).push(c));
            chars@.take(i as int).lemma_filter_push(c, unambiguous());
        }
        if !is_ambiguous_char(c) {
            kept.push(c);
        }
        i += 1;
    }
    proof {
        assert(chars@.take(chars.len() as int) =~= chars@);
    }
    kept
}

/// The characters of `class` that `options` lets through: the class itself,
/// or the class without its ambiguous characters.
pub fn allowed_chars(options: &PasswordOptions, class: &str) -> (chars: Vec<char>)
    ensures
        chars@ == options.allowed(class@),
{
    let mut chars: Vec<char> = Vec::new();
    push_chars(&mut chars, class);
    if options.avoid_ambiguous {
        remove_ambiguous(&chars)
    } else {
        chars
    }
}

/// The pool of `options`: the included classes one after the other, then the
/// ambiguity filter.
pub fn character_pool(options: &PasswordOptions) -> (pool: Vec<char>)
    ensures
        pool@ == options.pool(),
{
    let mut pool: Vec<char> = Vec::new();
    if options.include_uppercase {
        push_chars(&mut pool, UPPERCASE);
    }
    if options.include_lowercase {
        push_chars(&mut pool, LOWERCASE);
    }
    if options.include_digits {
        push_chars(&mut pool, DIGITS);
    }
    if options.include_specials {
        push_chars(&mut pool, SPECIALS);
    }
    if options.avoid_ambiguous {
        pool = remove_ambiguous(&pool);
    }
    pool
}

/// The minimums that a password of `options` is owed, digits first and
/// specials second: each requested minimum cut down to the length that is
/// left for it.
pub fn effective_minimums(options: &PasswordOptions) -> (minimums: (usize, usize))
    ensures
        minimums.0 == options.effective_min_digits(),
        minimums.1 == options.effective_min_specials(),
{
    let digits_limit = if options.include_digits {
        options.length
    } else {
        0
    };
    let min_digits = if options.min_digits <= digits_limit {
        options.min_digits
    } else {
        digits_limit
    };
    let specials_limit = if options.include_specials {
        options.length - min_digits
    } else {
        0
    };
    let min_specials = if options.min_specials <= specials_limit {
        options.min_specials
    } else {
        specials_limit
    };
    (min_digits, min_specials)
}

/// What holds of every password that is made for `options`, whatever the
/// draws were: it has the requested length, all of its characters come from
/// the pool, and it holds at least the owed number of digits and of special
/// characters.
pub open spec fn is_password_for(options: PasswordOptions, password: Seq<char>) -> bool {
    &&& password.len() == options.length
    &&& all_from(password, options.pool())
    &&& count_of(password, options.digit_pool()) >= options.effective_min_digits()
    &&& count_of(password, options.special_pool()) >= options.effective_min_specials()
}

/// The characters before they are shuffled: the owed digits, then the owed
/// specials, then the fill.
spec fn is_draft_for(options: PasswordOptions, draft: Seq<char>) -> bool {
    let digits = options.effective_min_digits() as int;
    let specials = options.effective_min_specials() as int;
    &&& draft.len() == options.length
    &&& all_from(draft.subrange(0, digits), options.digit_pool())
    &&& all_from(draft.subrange(digits, digits + specials), options.special_pool())
    &&& all_from(draft, options.pool())
}

/// With no class included there is nothing in the pool.
pub proof fn lemma_nothing_included_empties_pool(options: PasswordOptions)
    ensures
        options.nothing_included() ==> options.pool().len() == 0,
{
    if options.nothing_included() {
        assert(options.included() =~= Seq::<char>::empty());
        reveal(Seq::filter);
    }
}

/// The characters of every included class are among the included characters.
proof fn lemma_included_classes(options: PasswordOptions)
    ensures
        options.include_uppercase ==> forall|x: char|
            UPPERCASE@.contains(x) ==> #[trigger] options.included().contains(x),
        options.include_lowercase ==> forall|x: char|
            LOWERCASE@.contains(x) ==> #[trigger] options.included().contains(x),
        options.include_digits ==> forall|x: char|
            DIGITS@.contains(x) ==> #[trigger] options.included().contains(x),
        options.include_specials ==> forall|x: char|
            SPECIALS@.contains(x) ==> #[trigger] options.included().contains(x),
{
    let upper = class_if(options.include_uppercase, UPPERCASE@);
    let lower = class_if(options.include_lowercase, LOWERCASE@);
    let digits = class_if(options.include_digits, DIGITS@);
    let specials = class_if(options.include_specials, SPECIALS@);
    let all = options.included();
    assert forall|x: char| upper.contains(x) implies #[trigger] all.contains(x) by {
        let k = choose|k: int| 0 <= k < upper.len() && upper[k] == x;
        assert(all[k] == x);
    }
    assert forall|x: char| lower.contains(x) implies #[trigger] all.contains(x) by {
        let k = choose|k: int| 0 <= k < lower.len() && lower[k] == x;
        assert(all[upper.len() + k] == x);
    }
    assert forall|x: char| digits.contains(x) implies #[trigger] all.contains(x) by {
        let k = choose|k: int| 0 <= k < digits.len() && digits[k] == x;
        assert(all[upper.len() + lower.len() + k] == x);
    }
    assert forall|x: char| specials.contains(x) implies #[trigger] all.contains(x) by {
        let k = choose|k: int| 0 <= k < specials.len() && specials[k] == x;
        assert(all[upper.len() + lower.len() + digits.len() + k] == x);
    }
}

/// Where all of a class is among the included characters, what the options
/// let through of it is part of the pool.
proof fn lemma_class_in_pool(options: PasswordOptions, class: Seq<char>, c: char)
    requires
        forall|x: char| class.contains(x) ==> #[trigger] options.included().contains(x),
        options.allowed(class).contains(c),
    ensures
        options.pool().contains(c),
{
    if options.avoid_ambiguous {
        let kept = without_ambiguous(class);
        let k = choose|k: int| 0 <= k < kept.len() && kept[k] == c;
        class.lemma_filter_pred(unambiguous(), k);
        class.lemma_filter_contains_rev(unambiguous(), c);
        assert(options.included().contains(c));
        let i = choose|i: int| 0 <= i < options.included().len() && options.included()[i] == c;
        options.included().lemma_filter_contains(unambiguous(), i);
    }
}

/// The unshuffled characters already are a password for `options`.
proof fn lemma_draft_is_password(options: PasswordOptions, draft: Seq<char>)
    requires
        is_draft_for(options, draft),
    ensures
        is_password_for(options, draft),
{
    let digits = options.effective_min_digits() as int;
    let specials = options.effective_min_specials() as int;
    let len = draft.len() as int;
    let head = draft.subrange(0, digits);
    let middle = draft.subrange(digits, digits + specials);
    let tail = draft.subrange(digits + specials, len);
    assert(draft =~= head + (middle + tail));
    lemma_count_of_concat(head, middle + tail, options.digit_pool());
    lemma_count_of_all_from(head, options.digit_pool());
    assert(draft =~= (head + middle) + tail);
    lemma_count_of_concat(head + middle, tail, options.special_pool());
    lemma_count_of_concat(head, middle, options.special_pool());
    lemma_count_of_all_from(middle, options.special_pool());
}

/// Appends to `draft` the character of `set` that the draw `index` selects.
pub fn push_drawn(draft: &mut Vec<char>, set: &Vec<char>, index: usize)
    requires
        index < set.len(),
    ensures
        final(draft)@ == old(draft)@.push(set@[index as int]),
{
    draft.push(set[index]);
}

/// Appends `count` characters to `draft`, each drawn at random from `set`.
fn draw_into(draft: &mut Vec<char>, set: &Vec<char>, count: usize, rng: &mut ThreadRng)
    requires
        set.len() > 0,
    ensures
        final(draft)@.len() == old(draft)@.len() + count,
        final(draft)@.subrange(0, old(draft)@.len() as int) == old(draft)@,
        all_from(
            final(draft)@.subrange(old(draft)@.len() as int, final(draft)@.len() as int),
            set@,
        ),
{
    let ghost before = draft@;
    let mut drawn: usize = 0;
    while drawn < count
        invariant
            set.len() > 0,
            drawn <= count,
            draft@.len() == before.len() + drawn,
            draft@.subrange(0, before.len() as int) == before,
            all_from(draft@.subrange(before.len() as int, draft@.len() as int), set@),
        decreases count - drawn,
    {
        let ghost previous = draft@;
        let index = random_index(rng, set.len());
        push_drawn(draft, set, index);
        drawn += 1;
        proof {
            let added = draft@.subrange(before.len() as int, draft@.len() as int);
            let earlier = previous.subrange(before.len() as int, previous.len() as int);
            assert(draft@.subrange(0, before.len() as int) =~= previous.subrange(
                0,
                before.len() as int,
            ));
            assert forall|i: int| 0 <= i < added.len() implies set@.contains(
                #[trigger] added[i],
            ) by {
                if i < earlier.len() {
                    assert(added[i] == earlier[i]);
                } else {
                    assert(added[i] == set@[index as int]);
                }
            }
        }
    }
}

/// Generates a password for `options`.
///
/// A length below [`MIN_LENGTH`] is refused, whatever the other fields say;
/// after that, so is a request that leaves no character to draw from. Every
/// other request is met: minimums that do not fit are cut down, never refused.
///
/// The owed digits are drawn first, then the owed specials, then the fill
/// from the whole pool; at the end the characters are shuffled. Which password
/// comes back depends on chance, so the contract states what holds of each.
pub fn generate_password(options: &PasswordOptions) -> (result: Result<String, VaultKeyError>)
    ensures
        options.length < MIN_LENGTH ==> result matches Err(VaultKeyError::PasswordTooShort),
        options.length >= MIN_LENGTH && (options.nothing_included() || options.pool().len() == 0)
            ==> result matches Err(VaultKeyError::NoCharacterTypesSelected),
        options.length >= MIN_LENGTH && options.pool().len() > 0 ==> (result matches Ok(password)
            && is_password_for(*options, password@)),
{
    let mut rng = thread_rng();
    let pool = character_pool(options);
    proof {
        lemma_nothing_included_empties_pool(*options);
    }

    if options.length < MIN_LENGTH {
        return Err(VaultKeyError::PasswordTooShort);
    }
    if pool.is_empty() {
        return Err(VaultKeyError::NoCharacterTypesSelected);
    }
    let mut draft: Vec<char> = Vec::new();
    let (min_digits, min_specials) = effective_minimums(options);
    let digit_chars = allowed_chars(options, DIGITS);
    let special_chars = allowed_chars(options, SPECIALS);

    proof {
        lemma_classes_keep_a_member();
        lemma_member_survives(DIGITS@, '2');
        lemma_member_survives(SPECIALS@, '!');
    }
    if options.include_digits && min_digits > 0 && !digit_chars.is_empty() {
        draw_into(&mut draft, &digit_chars, min_digits, &mut rng);
    }
    let ghost seeded_digits = draft@;
    assert(seeded_digits.len() == min_digits);
    assert(seeded_digits.subrange(0, min_digits as int) =~= seeded_digits);

    if options.include_specials && min_specials > 0 && !special_chars.is_empty() {
        draw_into(&mut draft, &special_chars, min_specials, &mut rng);
    }
    let ghost seeded = draft@;
    assert(seeded.len() == min_digits + min_specials);

    let rest = options.length - draft.len();
    draw_into(&mut draft, &pool, rest, &mut rng);

    proof {
        lemma_included_classes(*options);
        let full = draft@;
        let digits = min_digits as int;
        let specials = min_specials as int;
        assert(full.subrange(0, digits) =~= seeded.subrange(0, digits));
        assert(full.subrange(digits, digits + specials) =~= seeded.subrange(
            digits,
            digits + specials,
        ));
        assert(seeded.subrange(0, digits) =~= seeded_digits);
        assert forall|i: int| 0 <= i < full.len() implies options.pool().contains(
            #[trigger] full[i],
        ) by {
            if i < digits {
                assert(full[i] == full.subrange(0, digits)[i]);
                lemma_class_in_pool(*options, DIGITS@, full[i]);
            } else if i < digits + specials {
                assert(full[i] == full.subrange(digits, digits + specials)[i - digits]);
                lemma_class_in_pool(*options, SPECIALS@, full[i]);
            } else {
                assert(full[i] == full.subrange(digits + specials, full.len() as int)[i - digits
                    - specials]);
            }
        }
        lemma_draft_is_password(*options, full);
    }
    let ghost unshuffled = draft@;
    shuffle(&mut draft, &mut rng);
    let password = string_from_chars(&draft);
    proof {
        lemma_reordered(unshuffled, password@, options.pool());
        lemma_reordered(unshuffled, password@, options.digit_pool());
        lemma_reordered(unshuffled, password@, options.special_pool());
    }
    Ok(password)
}

} // verus!
