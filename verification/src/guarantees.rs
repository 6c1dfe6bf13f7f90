//! What callers can rely on, stated over the meaning of the options and proved
//! once for every configuration.

use vstd::prelude::*;

use crate::constants::{
    is_ambiguous, lemma_classes_keep_a_member, lemma_member_survives, unambiguous,
    without_ambiguous, DIGITS, LOWERCASE, SPECIALS, UPPERCASE,
};
use crate::counting::{all_from, count_of, lemma_filter_len_weaker, member_of};
use crate::generator::{is_password_for, lemma_nothing_included_empties_pool};
use crate::options::{class_if, PasswordOptions};

verus! {

/// The pool is empty exactly when no class is included: the ambiguity filter
/// never empties a class.
pub proof fn lemma_pool_empty_iff_nothing_included(options: PasswordOptions)
    ensures
        options.pool().len() == 0 <==> options.nothing_included(),
{
    lemma_classes_keep_a_member();
    let upper = class_if(options.include_uppercase, UPPERCASE@);
    let lower = class_if(options.include_lowercase, LOWERCASE@);
    let digits = class_if(options.include_digits, DIGITS@);
    let specials = class_if(options.include_specials, SPECIALS@);
    let all = options.included();
    if options.include_uppercase {
        let k = choose|k: int| 0 <= k < upper.len() && upper[k] == 'A';
        assert(all[k] == 'A');
        lemma_member_survives(all, 'A');
    } else if options.include_lowercase {
        let k = choose|k: int| 0 <= k < lower.len() && lower[k] == 'a';
        assert(all[upper.len() + k] == 'a');
        lemma_member_survives(all, 'a');
    } else if options.include_digits {
        let k = choose|k: int| 0 <= k < digits.len() && digits[k] == '2';
        assert(all[upper.len() + lower.len() + k] == '2');
        lemma_member_survives(all, '2');
    } else if options.include_specials {
        let k = choose|k: int| 0 <= k < specials.len() && specials[k] == '!';
        assert(all[upper.len() + lower.len() + digits.len() + k] == '!');
        lemma_member_survives(all, '!');
    } else {
        lemma_nothing_included_empties_pool(options);
    }
}

/// The owed digits and the owed specials together never exceed the requested
/// length, however large the requested minimums are.
pub proof fn lemma_minimums_fit(options: PasswordOptions)
    ensures
        options.effective_min_digits() + options.effective_min_specials() <= options.length,
        options.effective_min_digits() <= options.min_digits,
        options.effective_min_specials() <= options.min_specials,
{
}

/// Every character of the pool belongs to an included class.
pub proof fn lemma_pool_within_included(options: PasswordOptions)
    ensures
        forall|c: char| options.pool().contains(c) ==> #[trigger] options.included().contains(c),
{
    let included = options.included();
    assert forall|c: char| options.pool().contains(c) implies #[trigger] included.contains(c) by {
        if options.avoid_ambiguous {
            included.lemma_filter_contains_rev(unambiguous(), c);
        }
    }
}

/// Every character of a password belongs to one of the included classes. So
/// where a single class is included, every character belongs to that class.
pub proof fn lemma_only_included_classes(options: PasswordOptions, password: Seq<char>)
    requires
        is_password_for(options, password),
    ensures
        all_from(password, options.included()),
        options.include_uppercase && !options.include_lowercase && !options.include_digits
            && !options.include_specials ==> all_from(password, UPPERCASE@),
        !options.include_uppercase && options.include_lowercase && !options.include_digits
            && !options.include_specials ==> all_from(password, LOWERCASE@),
        !options.include_uppercase && !options.include_lowercase && options.include_digits
            && !options.include_specials ==> all_from(password, DIGITS@),
        !options.include_uppercase && !options.include_lowercase && !options.include_digits
            && options.include_specials ==> all_from(password, SPECIALS@),
{
    lemma_pool_within_included(options);
    assert(all_from(password, options.included())) by {
        assert forall|i: int| 0 <= i < password.len() implies options.included().contains(
            #[trigger] password[i],
        ) by {
            assert(options.pool().contains(password[i]));
        }
    }
    let empty = Seq::<char>::empty();
    assert(UPPERCASE@ + empty + empty + empty =~= UPPERCASE@);
    assert(empty + LOWERCASE@ + empty + empty =~= LOWERCASE@);
    assert(empty + empty + DIGITS@ + empty =~= DIGITS@);
    assert(empty + empty + empty + SPECIALS@ =~= SPECIALS@);
}

/// What the options let through of a class is part of the class, so a password
/// holds at least as many characters of the class as of what is let through.
proof fn lemma_count_of_allowed(options: PasswordOptions, password: Seq<char>, class: Seq<char>)
    ensures
        count_of(password, options.allowed(class)) <= count_of(password, class),
{
    let narrow = member_of(options.allowed(class));
    let wide = member_of(class);
    assert forall|c: char| #[trigger] narrow(c) implies wide(c) by {
        if options.avoid_ambiguous {
            class.lemma_filter_contains_rev(unambiguous(), c);
        }
    }
    lemma_filter_len_weaker(password, narrow, wide);
}

/// Where digits are included, a password holds at least as many digits as
/// were asked for, or consists of digits only if more were asked for than it
/// has characters.
pub proof fn lemma_enough_digits(options: PasswordOptions, password: Seq<char>)
    requires
        is_password_for(options, password),
        options.include_digits,
    ensures
        count_of(password, DIGITS@) >= options.effective_min_digits(),
        options.effective_min_digits() == if options.min_digits <= options.length {
            options.min_digits
        } else {
            options.length
        },
{
    lemma_count_of_allowed(options, password, DIGITS@);
}

/// Where special characters are included, a password holds at least as many
/// of them as were asked for, or as many as the owed digits leave room for.
pub proof fn lemma_enough_specials(options: PasswordOptions, password: Seq<char>)
    requires
        is_password_for(options, password),
        options.include_specials,
    ensures
        count_of(password, SPECIALS@) >= options.effective_min_specials(),
        options.effective_min_specials() == if options.min_specials <= options.length
            - options.effective_min_digits() {
            options.min_specials as int
        } else {
            options.length - options.effective_min_digits()
        },
{
    lemma_count_of_allowed(options, password, SPECIALS@);
}

/// Where ambiguous characters are avoided, a password holds none of them.
pub proof fn lemma_no_ambiguous_character(options: PasswordOptions, password: Seq<char>)
    requires
        is_password_for(options, password),
        options.avoid_ambiguous,
    ensures
        forall|i: int| 0 <= i < password.len() ==> !is_ambiguous(#[trigger] password[i]),
{
    let pool = without_ambiguous(options.included());
    assert forall|i: int| 0 <= i < password.len() implies !is_ambiguous(
        #[trigger] password[i],
    ) by {
        assert(pool.contains(password[i]));
        let k = choose|k: int| 0 <= k < pool.len() && pool[k] == password[i];
        options.included().lemma_filter_pred(unambiguous(), k);
    }
}

} // verus!
