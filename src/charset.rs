//! Character sets and the ordered alphabet that each of them stands for.
use vstd::prelude::*;

verus! {

/// Configuration for output characters.
#[derive(Clone, Copy, Debug)]
pub enum OutputCharsType {
    /// Latin-Alphabet specifying to use upper/lower case.
    LatinAlphabet { use_upper_case: bool, use_lower_case: bool },
    /// Latin-Alphabet and numeric figures specifying to use upper/lower case.
    LatinAlphabetAndNumeric { use_upper_case: bool, use_lower_case: bool },
    /// Numeric figures.
    Numeric,
    /// Printable ASCII characters *without* SPACE. (0x21-0x7E)
    PrintableAsciiWithoutSpace,
    /// Printable ASCII characters *with* SPACE. (0x20-0x7E)
    PrintableAsciiWithSpace,
}

/// The `len` characters whose code points follow each other from `first` on.
pub open spec fn code_run(first: int, len: nat) -> Seq<char> {
    Seq::new(len, |i: int| (first + i) as char)
}

/// `A` to `Z`.
pub open spec fn upper_case_letters() -> Seq<char> {
    code_run(0x41, 26)
}

/// `a` to `z`.
pub open spec fn lower_case_letters() -> Seq<char> {
    code_run(0x61, 26)
}

/// `0` to `9`.
pub open spec fn decimal_digits() -> Seq<char> {
    code_run(0x30, 10)
}

/// The letters that the two case flags select. Flags that select neither
/// case fall back to both cases, so that the alphabet is never empty.
pub open spec fn letters(use_upper_case: bool, use_lower_case: bool) -> Seq<char> {
    if use_upper_case && !use_lower_case {
        upper_case_letters()
    } else if !use_upper_case && use_lower_case {
        lower_case_letters()
    } else {
        upper_case_letters() + lower_case_letters()
    }
}

/// Whether `c` belongs to the character set, stated over its code point.
pub open spec fn admits_code(t: OutputCharsType, c: char) -> bool {
    let x = c as int;
    let upper = 0x41 <= x <= 0x5a;
    let lower = 0x61 <= x <= 0x7a;
    let digit = 0x30 <= x <= 0x39;
    match t {
        OutputCharsType::LatinAlphabet { use_upper_case: u, use_lower_case: l } => {
            (upper && (u || !l)) || (lower && (l || !u))
        },
        OutputCharsType::LatinAlphabetAndNumeric { use_upper_case: u, use_lower_case: l } => {
            (upper && (u || !l)) || (lower && (l || !u)) || digit
        },
        OutputCharsType::Numeric => digit,
        OutputCharsType::PrintableAsciiWithoutSpace => 0x21 <= x <= 0x7e,
        OutputCharsType::PrintableAsciiWithSpace => 0x20 <= x <= 0x7e,
    }
}

impl OutputCharsType {
    /// The ordered table that a draw indexes into: a draw of `i` gives the
    /// character at position `i`.
    pub open spec fn alphabet(self) -> Seq<char> {
        match self {
            OutputCharsType::LatinAlphabet { use_upper_case: u, use_lower_case: l } => letters(u, l),
            OutputCharsType::LatinAlphabetAndNumeric { use_upper_case: u, use_lower_case: l } => {
                letters(u, l) + decimal_digits()
            },
            OutputCharsType::Numeric => decimal_digits(),
            OutputCharsType::PrintableAsciiWithoutSpace => code_run(0x21, 94),
            OutputCharsType::PrintableAsciiWithSpace => code_run(0x20, 95),
        }
    }

    /// The number of characters in the set: the exclusive bound of a draw.
    pub fn alphabet_len(self) -> (n: u32)
        ensures
            n == self.alphabet().len(),
            0 < n,
    {
        match self {
            OutputCharsType::LatinAlphabet { use_upper_case, use_lower_case } => {
                if use_upper_case != use_lower_case {
                    26
                } else {
                    52
                }
            },
            OutputCharsType::LatinAlphabetAndNumeric { use_upper_case, use_lower_case } => {
                if use_upper_case != use_lower_case {
                    36
                } else {
                    62
                }
            },
            OutputCharsType::Numeric => 10,
            OutputCharsType::PrintableAsciiWithoutSpace => 94,
            OutputCharsType::PrintableAsciiWithSpace => 95,
        }
    }

    /// The character that a draw of `index` stands for.
    pub fn symbol_at(self, index: u32) -> (c: char)
        requires
            index < self.alphabet().len(),
        ensures
            c == self.alphabet()[index as int],
    {
        match self {
            OutputCharsType::LatinAlphabet { use_upper_case, use_lower_case } => {
                letter_at(use_upper_case, use_lower_case, index)
            },
            OutputCharsType::LatinAlphabetAndNumeric { use_upper_case, use_lower_case } => {
                let n_letters: u32 = if use_upper_case != use_lower_case {
                    26
                } else {
                    52
                };
                if index < n_letters {
                    letter_at(use_upper_case, use_lower_case, index)
                } else {
                    digit_char(index - n_letters)
                }
            },
            OutputCharsType::Numeric => digit_char(index),
            OutputCharsType::PrintableAsciiWithoutSpace => (0x21u8 + index as u8) as char,
            OutputCharsType::PrintableAsciiWithSpace => (0x20u8 + index as u8) as char,
        }
    }
}

/// The decimal digit with value `d`.
fn digit_char(d: u32) -> (c: char)
    requires
        d < 10,
    ensures
        c == decimal_digits()[d as int],
{
    (0x30u8 + d as u8) as char
}

/// The letter at position `index` of `letters(use_upper_case, use_lower_case)`.
fn letter_at(use_upper_case: bool, use_lower_case: bool, index: u32) -> (c: char)
    requires
        index < letters(use_upper_case, use_lower_case).len(),
    ensures
        c == letters(use_upper_case, use_lower_case)[index as int],
{
    if use_upper_case && !use_lower_case {
        (0x41u8 + index as u8) as char
    } else if !use_upper_case && use_lower_case {
        (0x61u8 + index as u8) as char
    } else if index < 26 {
        (0x41u8 + index as u8) as char
    } else {
        (0x61u8 + (index - 26) as u8) as char
    }
}

} // verus!
