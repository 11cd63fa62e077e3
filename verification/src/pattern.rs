//! Identifier-token patterns. A directory name carries its catalog
//! identifier as a token matched by a configured pattern (by default
//! braces wrapping `imdb-` and digits, or `tmdb-` and digits); the
//! pattern's first capture group is the identifier. Compilation and
//! matching are the regex crate's; a pattern that does not compile is
//! a construction failure.
use vstd::prelude::*;

verus! {

#[verifier::external_type_specification]
#[verifier::external_body]
pub struct ExRegex(regex::Regex);

/// Whether the regex crate accepts `pattern`, a function of the
/// pattern alone.
pub uninterp spec fn regex_compiles(pattern: Seq<char>) -> bool;

/// The first capture group of `pattern`'s first match in `text`, a
/// function of pattern and text alone; nothing when the pattern does
/// not match or has no first capture group.
pub uninterp spec fn regex_first_capture(pattern: Seq<char>, text: Seq<char>) -> Option<Seq<char>>;

/// A compiled identifier-token pattern.
#[derive(Debug)]
pub struct IdPattern {
    pattern: String,
    compiled: regex::Regex,
}

impl IdPattern {
    /// The pattern source this value was compiled from.
    pub closed spec fn pattern_view(&self) -> Seq<char> {
        self.pattern@
    }

    /// Relies on regex's `Regex::new`: succeeds exactly on the patterns
    /// the regex crate accepts.
    #[verifier::external_body]
    pub fn compile(pattern: &str) -> (r: Option<IdPattern>)
        ensures
            r matches Some(p) ==> p.pattern_view() == pattern@ && regex_compiles(pattern@),
            r is None ==> !regex_compiles(pattern@),
    {
        match regex::Regex::new(pattern) {
            Ok(re) => Some(IdPattern { pattern: pattern.to_string(), compiled: re }),
            Err(_) => None,
        }
    }

    /// Relies on regex's `Regex::captures`, `Captures::get`: the first
    /// capture group of the first match, a function of the pattern and
    /// the text alone.
    #[verifier::external_body]
    pub fn first_capture(&self, text: &str) -> (r: Option<String>)
        ensures
            ({
                let c = regex_first_capture(self.pattern_view(), text@);
                match r {
                    Some(s) => c matches Some(cs) && s@ == cs,
                    None => c is None,
                }
            }),
    {
        self.compiled.captures(text).and_then(|cap| cap.get(1)).map(|m| m.as_str().to_string())
    }
}

} // verus!
