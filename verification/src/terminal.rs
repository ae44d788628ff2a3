//! What a line typed at the prompt means.

use vstd::prelude::*;

verus! {

/// The outcome of asking the user for a prompt.
#[derive(Debug)]
pub enum PromptStatus {
    /// A prompt to send, with the surrounding whitespace removed.
    Success(String),
    /// The user asked to leave.
    Exit,
}

/// An ASCII upper-case letter becomes its lower-case form; any other
/// character stays as it is.
pub open spec fn ascii_lowercase(c: char) -> char {
    if 'A' <= c && c <= 'Z' {
        ((c as u32) + 32) as char
    } else {
        c
    }
}

/// Two texts are the same once their ASCII letters are lower-cased.
pub open spec fn eq_ignoring_ascii_case(a: Seq<char>, b: Seq<char>) -> bool {
    a.map_values(|c: char| ascii_lowercase(c)) == b.map_values(|c: char| ascii_lowercase(c))
}

/// The words that end a session: `q` and `quit`, in any mix of cases.
pub open spec fn is_exit_word(text: Seq<char>) -> bool {
    eq_ignoring_ascii_case(text, seq!['q']) || eq_ignoring_ascii_case(
        text,
        seq!['q', 'u', 'i', 't'],
    )
}

/// Wraps `str::eq_ignore_ascii_case`, which std documents as the comparison
/// of the two strings after `to_ascii_lowercase`: the letters `A` to `Z`
/// are mapped to `a` to `z`, every other character is left alone.
#[verifier::external_body]
fn str_eq_ignore_ascii_case(a: &str, b: &str) -> (same: bool)
    ensures
        same == eq_ignoring_ascii_case(a@, b@),
{
    a.eq_ignore_ascii_case(b)
}

/// Whether the trimmed prompt is one of the words that end a session.
pub fn is_exit_code(trimmed_prompt: &str) -> (exit: bool)
    ensures
        exit == is_exit_word(trimmed_prompt@),
{
    proof {
        reveal_strlit("q");
        reveal_strlit("quit");
        assert("q"@ =~= seq!['q']);
        assert("quit"@ =~= seq!['q', 'u', 'i', 't']);
    }
    str_eq_ignore_ascii_case(trimmed_prompt, "q") || str_eq_ignore_ascii_case(
        trimmed_prompt,
        "quit",
    )
}

/// The characters with the Unicode property `White_Space`.
pub open spec fn is_whitespace(c: char) -> bool {
    ||| '\u{9}' <= c && c <= '\u{d}'
    ||| c == ' '
    ||| c == '\u{85}'
    ||| c == '\u{a0}'
    ||| c == '\u{1680}'
    ||| '\u{2000}' <= c && c <= '\u{200a}'
    ||| c == '\u{2028}'
    ||| c == '\u{2029}'
    ||| c == '\u{202f}'
    ||| c == '\u{205f}'
    ||| c == '\u{3000}'
}

/// `text` without its leading whitespace.
pub open spec fn trim_start(text: Seq<char>) -> Seq<char>
    decreases text.len(),
{
    if text.len() > 0 && is_whitespace(text.first()) {
        trim_start(text.drop_first())
    } else {
        text
    }
}

/// `text` without its trailing whitespace.
pub open spec fn trim_end(text: Seq<char>) -> Seq<char>
    decreases text.len(),
{
    if text.len() > 0 && is_whitespace(text.last()) {
        trim_end(text.drop_last())
    } else {
        text
    }
}

/// `text` without its leading and trailing whitespace.
pub open spec fn trimmed(text: Seq<char>) -> Seq<char> {
    trim_end(trim_start(text))
}

/// Wraps `str::trim`, which std documents as returning the string slice
/// with leading and trailing whitespace removed, whitespace being the
/// characters with the Unicode property `White_Space`.
#[verifier::external_body]
fn str_trim(line: &str) -> (text: &str)
    ensures
        text@ == trimmed(line@),
{
    line.trim()
}

/// Reads a line typed by the user. The line is trimmed first. An exit word
/// ends the session; an empty prompt is no prompt, and the user is to be
/// asked again; anything else is the prompt to send.
pub fn parse_prompt(line: &str) -> (status: Option<PromptStatus>)
    ensures
        is_exit_word(trimmed(line@)) ==> status == Some(PromptStatus::Exit),
        !is_exit_word(trimmed(line@)) && trimmed(line@).len() == 0 ==> status is None,
        !is_exit_word(trimmed(line@)) && trimmed(line@).len() > 0 ==> (status matches Some(
            PromptStatus::Success(prompt),
        ) && prompt@ == trimmed(line@)),
{
    let trimmed_prompt = str_trim(line);
    if is_exit_code(trimmed_prompt) {
        Some(PromptStatus::Exit)
    } else if trimmed_prompt.is_empty() {
        None
    } else {
        Some(PromptStatus::Success(trimmed_prompt.to_owned()))
    }
}

} // verus!
