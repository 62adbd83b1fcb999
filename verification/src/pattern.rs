//! Searching text with the `regex` crate.
//!
//! Verus does not look into the crate. What is taken on trust here is that
//! whether a pattern compiles depends on the pattern alone, that a search's
//! outcome depends on the pattern and the text alone, and how a literal is
//! escaped.

use vstd::prelude::*;
use vstd::string::*;

verus! {

/// The error of the `regex` crate for a pattern that it does not compile.
#[verifier::external_type_specification]
#[verifier::external_body]
pub struct ExRegexError(regex::Error);

/// Whether `regex::Regex::new` compiles `pattern`.
pub uninterp spec fn regex_compiles(pattern: Seq<char>) -> bool;

/// For a pattern that compiles: what its first capture group holds in the
/// leftmost match in `text`; nothing where the pattern matches nowhere or the
/// group takes no part in the match.
pub uninterp spec fn regex_first_group(pattern: Seq<char>, text: Seq<char>) -> Option<Seq<char>>;

/// Whether `c` has a meaning of its own in a pattern.
pub open spec fn is_meta(c: char) -> bool {
    ||| c == '\\'
    ||| c == '.'
    ||| c == '+'
    ||| c == '*'
    ||| c == '?'
    ||| c == '('
    ||| c == ')'
    ||| c == '|'
    ||| c == '['
    ||| c == ']'
    ||| c == '{'
    ||| c == '}'
    ||| c == '^'
    ||| c == '$'
    ||| c == '#'
    ||| c == '&'
    ||| c == '-'
    ||| c == '~'
}

/// `text` with a backslash before each character that has a meaning of its own
/// in a pattern.
pub open spec fn escaped(text: Seq<char>) -> Seq<char>
    decreases text.len(),
{
    if text.len() == 0 {
        Seq::empty()
    } else if is_meta(text.last()) {
        escaped(text.drop_last()).push('\\').push(text.last())
    } else {
        escaped(text.drop_last()).push(text.last())
    }
}

/// Calls `regex::escape`. Trusted: the result is `text` with a backslash put
/// before each of the crate's meta characters, as `regex_syntax::escape_into`
/// writes it.
#[verifier::external_body]
pub(crate) fn escape(text: &str) -> (r: String)
    ensures
        r@ == escaped(text@),
{
    regex::escape(text)
}

/// Compiles `pattern` with `regex::Regex::new`, searches `text` with
/// `Regex::captures` and takes the first group with `Captures::get`. Trusted:
/// the call fails exactly where the pattern does not compile, which depends
/// on the pattern alone; where the pattern compiles, what comes back depends
/// on the pattern and the text alone. Nothing is claimed about which
/// patterns compile.
#[verifier::external_body]
pub(crate) fn first_group(pattern: &str, text: &str) -> (r: Result<Option<String>, regex::Error>)
    ensures
        r is Ok <==> regex_compiles(pattern@),
        r matches Ok(found) ==> found.deep_view() == regex_first_group(pattern@, text@),
{
    let compiled = regex::Regex::new(pattern)?;
    Ok(compiled.captures(text).and_then(|c| c.get(1)).map(|m| m.as_str().to_string()))
}

} // verus!
