//! Facts about the character sets and the strings spelled over them.
use crate::charset::{
    admits_code, code_run, decimal_digits, letters, lower_case_letters, upper_case_letters,
    OutputCharsType,
};
use crate::generate::{draws_fit, spell};
use vstd::prelude::*;

verus! {

proof fn lemma_code_run_contains(first: int, len: nat, c: char)
    requires
        0 <= first,
        first + len <= 0xd800,
    ensures
        code_run(first, len).contains(c) <==> first <= (c as int) < first + len,
{
    if first <= (c as int) && (c as int) < first + len {
        let i = c as int - first;
        assert(code_run(first, len)[i] == c);
    }
}

proof fn lemma_code_run_no_duplicates(first: int, len: nat)
    requires
        0 <= first,
        first + len <= 0xd800,
    ensures
        code_run(first, len).no_duplicates(),
{
}

proof fn lemma_concat_contains(a: Seq<char>, b: Seq<char>, c: char)
    ensures
        (a + b).contains(c) <==> a.contains(c) || b.contains(c),
{
    if a.contains(c) {
        let i = choose|i: int| 0 <= i < a.len() && a[i] == c;
        assert((a + b)[i] == c);
    }
    if b.contains(c) {
        let j = choose|j: int| 0 <= j < b.len() && b[j] == c;
        assert((a + b)[a.len() + j] == c);
    }
    if (a + b).contains(c) {
        let k = choose|k: int| 0 <= k < (a + b).len() && (a + b)[k] == c;
        if k < a.len() {
            assert(a[k] == c);
        } else {
            assert(b[k - a.len()] == c);
        }
    }
}

proof fn lemma_concat_no_duplicates(a: Seq<char>, b: Seq<char>)
    requires
        a.no_duplicates(),
        b.no_duplicates(),
        forall|i: int| 0 <= i < a.len() ==> !b.contains(#[trigger] a[i]),
    ensures
        (a + b).no_duplicates(),
{
    assert forall|i: int, j: int|
        0 <= i < (a + b).len() && 0 <= j < (a + b).len() && i != j implies (a + b)[i] != (a
            + b)[j] by {
        if i < a.len() && j >= a.len() {
            assert(b[j - a.len()] == (a + b)[j]);
        } else if j < a.len() && i >= a.len() {
            assert(b[i - a.len()] == (a + b)[i]);
        }
    }
}

/// A character can come out of a character set exactly when its code point
/// lies in the ranges that the set names.
pub proof fn lemma_alphabet_matches_code_points(t: OutputCharsType, c: char)
    ensures
        t.alphabet().contains(c) <==> admits_code(t, c),
{
    lemma_code_run_contains(0x41, 26, c);
    lemma_code_run_contains(0x61, 26, c);
    lemma_code_run_contains(0x30, 10, c);
    lemma_code_run_contains(0x21, 94, c);
    lemma_code_run_contains(0x20, 95, c);
    lemma_concat_contains(upper_case_letters(), lower_case_letters(), c);
    match t {
        OutputCharsType::LatinAlphabetAndNumeric { use_upper_case: u, use_lower_case: l } => {
            lemma_concat_contains(letters(u, l), decimal_digits(), c);
        },
        _ => {},
    }
}

/// No character stands at two positions of an alphabet, so a uniform draw
/// of a position is a uniform draw of a character.
pub proof fn lemma_alphabet_has_no_duplicates(t: OutputCharsType)
    ensures
        t.alphabet().no_duplicates(),
{
    let up = upper_case_letters();
    let low = lower_case_letters();
    let dig = decimal_digits();
    lemma_code_run_no_duplicates(0x41, 26);
    lemma_code_run_no_duplicates(0x61, 26);
    lemma_code_run_no_duplicates(0x30, 10);
    lemma_code_run_no_duplicates(0x21, 94);
    lemma_code_run_no_duplicates(0x20, 95);
    assert forall|i: int| 0 <= i < up.len() implies !low.contains(#[trigger] up[i]) by {
        lemma_code_run_contains(0x61, 26, up[i]);
    }
    lemma_concat_no_duplicates(up, low);
    match t {
        OutputCharsType::LatinAlphabetAndNumeric { use_upper_case: u, use_lower_case: l } => {
            let ls = letters(u, l);
            assert forall|i: int| 0 <= i < ls.len() implies !dig.contains(#[trigger] ls[i]) by {
                lemma_code_run_contains(0x30, 10, ls[i]);
            }
            lemma_concat_no_duplicates(ls, dig);
        },
        _ => {},
    }
}

/// Distinct draw sequences spell distinct strings.
pub proof fn lemma_spell_is_injective(t: OutputCharsType, a: Seq<u32>, b: Seq<u32>)
    requires
        draws_fit(t, a),
        draws_fit(t, b),
        spell(t, a) == spell(t, b),
    ensures
        a == b,
{
    lemma_alphabet_has_no_duplicates(t);
    assert(a.len() == spell(t, a).len() && b.len() == spell(t, b).len());
    assert forall|k: int| 0 <= k < a.len() implies a[k] == b[k] by {
        assert(spell(t, a)[k] == t.alphabet()[a[k] as int]);
        assert(spell(t, b)[k] == t.alphabet()[b[k] as int]);
        assert(a[k] < t.alphabet().len() && b[k] < t.alphabet().len());
        assert(t.alphabet()[a[k] as int] == t.alphabet()[b[k] as int]);
    }
    assert(a =~= b);
}

/// Every string over the alphabet is spelled by some draw sequence of its
/// length. With the previous law: each such string comes from exactly one
/// sequence of draws, so uniform draws give uniformly distributed strings.
pub proof fn lemma_spell_reaches_every_string(t: OutputCharsType, s: Seq<char>)
    requires
        forall|k: int| 0 <= k < s.len() ==> t.alphabet().contains(#[trigger] s[k]),
    ensures
        exists|draws: Seq<u32>|
            draws.len() == s.len() && draws_fit(t, draws) && spell(t, draws) == s,
{
    let alpha = t.alphabet();
    let draws = Seq::new(
        s.len(),
        |k: int| (choose|i: int| 0 <= i < alpha.len() && alpha[i] == s[k]) as u32,
    );
    assert forall|k: int| 0 <= k < s.len() implies #[trigger] draws[k] < alpha.len()
        && alpha[draws[k] as int] == s[k] by {
        assert(alpha.contains(s[k]));
    }
    assert(spell(t, draws) =~= s);
}

/// Upper case letters alone: the output is drawn from exactly the 26 letters
/// `A` to `Z`.
pub proof fn lemma_upper_case_only(c: char)
    ensures
        upper_case_only().alphabet().len() == 26,
        upper_case_only().alphabet().contains(c) <==> 0x41 <= (c as int) <= 0x5a,
{
    lemma_alphabet_matches_code_points(upper_case_only(), c);
}

/// Both cases and digits: an alphabet of 62 distinct characters.
pub proof fn lemma_alphanumeric_size()
    ensures
        both_cases_and_digits().alphabet().len() == 62,
        both_cases_and_digits().alphabet().no_duplicates(),
{
    lemma_alphabet_has_no_duplicates(both_cases_and_digits());
}

/// Upper case letters without digits.
pub open spec fn upper_case_only() -> OutputCharsType {
    OutputCharsType::LatinAlphabet { use_upper_case: true, use_lower_case: false }
}

/// Both cases and the digits.
pub open spec fn both_cases_and_digits() -> OutputCharsType {
    OutputCharsType::LatinAlphabetAndNumeric { use_upper_case: true, use_lower_case: true }
}

/// The printable sets end at the tilde; only the set with space holds the
/// space.
pub proof fn lemma_printable_bounds()
    ensures
        OutputCharsType::PrintableAsciiWithSpace.alphabet().contains(' '),
        OutputCharsType::PrintableAsciiWithSpace.alphabet().contains('~'),
        OutputCharsType::PrintableAsciiWithoutSpace.alphabet().contains('~'),
        !OutputCharsType::PrintableAsciiWithoutSpace.alphabet().contains(' '),
{
    lemma_alphabet_matches_code_points(OutputCharsType::PrintableAsciiWithSpace, ' ');
    lemma_alphabet_matches_code_points(OutputCharsType::PrintableAsciiWithSpace, '~');
    lemma_alphabet_matches_code_points(OutputCharsType::PrintableAsciiWithoutSpace, '~');
    lemma_alphabet_matches_code_points(OutputCharsType::PrintableAsciiWithoutSpace, ' ');
}

} // verus!
