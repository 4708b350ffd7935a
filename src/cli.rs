//! Rules of the command line: argument values, flags and line endings.
use crate::charset::OutputCharsType;
use vstd::prelude::*;

verus! {

/// The value of a run of decimal digits.
pub open spec fn digits_value(d: Seq<char>) -> nat
    decreases d.len(),
{
    if d.len() == 0 {
        0
    } else {
        digits_value(d.drop_last()) * 10 + ((d.last() as int) - 0x30) as nat
    }
}

/// Whether `d` is one or more ASCII decimal digits.
pub open spec fn is_digit_run(d: Seq<char>) -> bool {
    d.len() > 0 && forall|i: int| 0 <= i < d.len() ==> 0x30 <= (#[trigger] d[i] as int) <= 0x39
}

/// What `usize` reads from text: an optional `+`, then one or more ASCII
/// digits whose value fits in `usize`. Nothing else is a number.
pub open spec fn usize_from_text(s: Seq<char>) -> Option<usize> {
    let d = if s.len() > 0 && s[0] == '+' {
        s.skip(1)
    } else {
        s
    };
    if is_digit_run(d) && digits_value(d) <= usize::MAX {
        Some(digits_value(d) as usize)
    } else {
        None
    }
}

/// Relies on `str::parse::<usize>` (std's `usize::from_str`): an optional
/// `+` followed by only ASCII digits, with a value that fits; anything else,
/// the empty string and a lone sign among it, is an error.
#[verifier::external_body]
fn parse_usize(s: &str) -> (r: Option<usize>)
    ensures
        r == usize_from_text(s@),
{
    s.parse::<usize>().ok()
}

/// The message given for a count or line number that is not a positive
/// integer.
pub open spec fn positive_count_message() -> Seq<char> {
    "The argument value must be 1 or greater."@
}

/// Accepts the text of a positive integer, as a count of characters or of
/// lines.
pub fn argument_validator(v: String) -> (r: Result<(), String>)
    ensures
        r is Ok <==> (usize_from_text(v@) matches Some(n) && n > 0),
        r matches Err(e) ==> e@ == positive_count_message(),
{
    let error_message = "The argument value must be 1 or greater.".to_owned();
    match parse_usize(v.as_str()) {
        Some(value) => {
            if value > 0 {
                Ok(())
            } else {
                Err(error_message)
            }
        },
        None => Err(error_message),
    }
}

/// The character set that the command-line flags select. A numeric or
/// printable flag wins; otherwise the case flags pick the letters, with
/// digits unless only the Latin alphabet is asked for.
pub fn output_chars_type_from_flags(
    numeric: bool,
    printable_ascii: bool,
    printable_ascii_with_space: bool,
    only_upper_case: bool,
    only_lower_case: bool,
    only_latin_alphabet: bool,
) -> (t: OutputCharsType)
    requires
        !(only_upper_case && only_lower_case),
    ensures
        t == (if numeric {
            OutputCharsType::Numeric
        } else if printable_ascii {
            OutputCharsType::PrintableAsciiWithoutSpace
        } else if printable_ascii_with_space {
            OutputCharsType::PrintableAsciiWithSpace
        } else if only_latin_alphabet {
            OutputCharsType::LatinAlphabet {
                use_upper_case: !only_lower_case,
                use_lower_case: !only_upper_case,
            }
        } else {
            OutputCharsType::LatinAlphabetAndNumeric {
                use_upper_case: !only_lower_case,
                use_lower_case: !only_upper_case,
            }
        }),
{
    if numeric {
        OutputCharsType::Numeric
    } else if printable_ascii {
        OutputCharsType::PrintableAsciiWithoutSpace
    } else if printable_ascii_with_space {
        OutputCharsType::PrintableAsciiWithSpace
    } else if only_latin_alphabet {
        OutputCharsType::LatinAlphabet {
            use_upper_case: !only_lower_case,
            use_lower_case: !only_upper_case,
        }
    } else {
        OutputCharsType::LatinAlphabetAndNumeric {
            use_upper_case: !only_lower_case,
            use_lower_case: !only_upper_case,
        }
    }
}

/// Whether output line `line_index` of `number_of_lines` ends with a newline:
/// every line does on a terminal; when the output is redirected the last
/// one does not.
pub fn ends_with_newline(line_index: usize, number_of_lines: usize, is_terminal: bool) -> (r: bool)
    requires
        line_index < number_of_lines,
    ensures
        r == (is_terminal || line_index + 1 < number_of_lines),
{
    is_terminal || line_index < number_of_lines - 1
}

} // verus!
