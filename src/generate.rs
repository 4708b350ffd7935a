//! Turning draws of a random source into strings over a character set.
use crate::charset::{admits_code, OutputCharsType};
use crate::laws::lemma_alphabet_matches_code_points;
use crate::source::{secure_source, RandomIndexSource};
use vstd::prelude::*;

verus! {

/// Whether every draw indexes into the alphabet of `t`.
pub open spec fn draws_fit(t: OutputCharsType, draws: Seq<u32>) -> bool {
    forall|k: int| 0 <= k < draws.len() ==> #[trigger] draws[k] < t.alphabet().len()
}

/// The string that the draws spell: the character at each drawn position.
pub open spec fn spell(t: OutputCharsType, draws: Seq<u32>) -> Seq<char> {
    draws.map_values(|d: u32| t.alphabet()[d as int])
}

/// Relies on `String::push`: appends one character at the end.
#[verifier::external_body]
fn push_char(s: &mut String, c: char)
    ensures
        final(s)@ == old(s)@.push(c),
{
    s.push(c);
}

/// Spells the given draws over the character set: one character per draw,
/// in order.
pub fn string_from_draws(draws: &Vec<u32>, output_chars_type: OutputCharsType) -> (s: String)
    requires
        draws_fit(output_chars_type, draws@),
    ensures
        s@ == spell(output_chars_type, draws@),
{
    let mut s = String::new();
    let mut i: usize = 0;
    while i < draws.len()
        invariant
            i <= draws@.len(),
            draws_fit(output_chars_type, draws@),
            s@ == spell(output_chars_type, draws@.take(i as int)),
        decreases draws@.len() - i,
    {
        let c = output_chars_type.symbol_at(draws[i]);
        push_char(&mut s, c);
        proof {
            assert(draws@.take(i + 1) == draws@.take(i as int).push(draws@[i as int]));
        }
        i = i + 1;
    }
    proof {
        assert(draws@.take(i as int) == draws@);
    }
    s
}

/// Generates a random characters string from the given source: it makes
/// one draw per character, and none when no character is asked for.
pub fn gen_random_string_with_rng<R: RandomIndexSource>(
    rng: &mut R,
    number_of_characters: usize,
    output_chars_type: OutputCharsType,
) -> (s: String)
    ensures
        s@.len() == number_of_characters,
        forall|k: int| 0 <= k < s@.len() ==> output_chars_type.alphabet().contains(#[trigger] s@[k]),
        forall|k: int| 0 <= k < s@.len() ==> admits_code(output_chars_type, #[trigger] s@[k]),
        exists|draws: Seq<u32>|
            draws.len() == number_of_characters && draws_fit(output_chars_type, draws) && s@
                == spell(output_chars_type, draws),
        number_of_characters == 0 ==> *final(rng) == *old(rng),
{
    let bound = output_chars_type.alphabet_len();
    let mut draws: Vec<u32> = Vec::new();
    let mut i: usize = 0;
    while i < number_of_characters
        invariant
            i <= number_of_characters,
            draws@.len() == i,
            bound == output_chars_type.alphabet().len(),
            draws_fit(output_chars_type, draws@),
            i == 0 ==> *rng == *old(rng),
        decreases number_of_characters - i,
    {
        let d = rng.uniform_index(bound);
        draws.push(d);
        i = i + 1;
    }
    let s = string_from_draws(&draws, output_chars_type);
    proof {
        assert forall|k: int| 0 <= k < s@.len() implies output_chars_type.alphabet().contains(
            #[trigger] s@[k],
        ) && admits_code(output_chars_type, s@[k]) by {
            assert(s@[k] == output_chars_type.alphabet()[draws@[k] as int]);
            lemma_alphabet_matches_code_points(output_chars_type, s@[k]);
        }
    }
    s
}

/// Generates a random characters string with the thread-local secure
/// generator.
pub fn gen_random_string(
    number_of_characters: usize,
    output_char_type: OutputCharsType,
) -> (s: String)
    ensures
        s@.len() == number_of_characters,
        forall|k: int| 0 <= k < s@.len() ==> output_char_type.alphabet().contains(#[trigger] s@[k]),
        forall|k: int| 0 <= k < s@.len() ==> admits_code(output_char_type, #[trigger] s@[k]),
        exists|draws: Seq<u32>|
            draws.len() == number_of_characters && draws_fit(output_char_type, draws) && s@
                == spell(output_char_type, draws),
{
    let mut rng = secure_source();
    gen_random_string_with_rng(&mut rng, number_of_characters, output_char_type)
}

} // verus!
