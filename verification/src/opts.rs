//! Resolution of a field's option tokens into a normalized option set.
//!
//! Three independent tokens are recognised — `substring`, `insensitive` and
//! `multiple` — by set containment, not position. Unrecognised tokens are
//! ignored; an empty token list yields the defaults (exact matching, single
//! value).

use vstd::prelude::*;

verus! {

/// The textual comparison strategy of a field.
#[derive(Debug, Clone, Copy, PartialEq, Eq, Structural)]
pub enum MatchKind {
    /// Field equals the value.
    Exact,
    /// Field contains the value (case-sensitive).
    Substring,
    /// Field case-insensitively equals the value.
    CaseInsensitive,
    /// Field case-insensitively contains the value.
    SubstringCaseInsensitive,
}

/// The normalized option set of a field: its comparison strategy and whether
/// it accepts a sequence of candidate values.
#[derive(Debug, Clone, Copy, PartialEq, Eq, Structural)]
pub struct FilterOpts {
    pub multiple: bool,
    pub kind: MatchKind,
}

/// Whether the token `t` occurs among `tokens`.
pub open spec fn has_token(tokens: Seq<Seq<char>>, t: Seq<char>) -> bool {
    exists|i: int| 0 <= i < tokens.len() && tokens[i] == t
}

/// The comparison strategy resolved from the presence of the two independent
/// tokens `substring` and `insensitive`.
pub open spec fn kind_of(substring: bool, insensitive: bool) -> MatchKind {
    if substring && insensitive {
        MatchKind::SubstringCaseInsensitive
    } else if substring {
        MatchKind::Substring
    } else if insensitive {
        MatchKind::CaseInsensitive
    } else {
        MatchKind::Exact
    }
}

/// The option set resolved from a token list.
pub open spec fn opts_of(tokens: Seq<Seq<char>>) -> FilterOpts {
    FilterOpts {
        multiple: has_token(tokens, "multiple"@),
        kind: kind_of(has_token(tokens, "substring"@), has_token(tokens, "insensitive"@)),
    }
}

/// Whether some element of `tokens` equals `t`.
fn contains_token(tokens: &Vec<String>, t: &String) -> (r: bool)
    ensures
        r == has_token(tokens.deep_view(), t@),
{
    let mut i: usize = 0;
    while i < tokens.len()
        invariant
            0 <= i <= tokens.len(),
            forall|j: int| 0 <= j < i ==> tokens.deep_view()[j] != t@,
        decreases tokens.len() - i,
    {
        if tokens[i] == *t {
            assert(tokens.deep_view()[i as int] == t@);
            return true;
        }
        i += 1;
    }
    false
}

impl Default for FilterOpts {
    /// The default option set: exact matching of a single value.
    fn default() -> (o: FilterOpts)
        ensures
            o.multiple == false,
            o.kind == MatchKind::Exact,
    {
        FilterOpts { multiple: false, kind: MatchKind::Exact }
    }
}

impl FilterOpts {
    /// Resolves a field's option tokens by set containment. Absence of every
    /// recognised token is not an error: it yields the defaults.
    pub fn from_tokens(tokens: &Vec<String>) -> (o: FilterOpts)
        ensures
            o == opts_of(tokens.deep_view()),
    {
        let substring = contains_token(tokens, &String::from_str("substring"));
        let insensitive = contains_token(tokens, &String::from_str("insensitive"));
        let multiple = contains_token(tokens, &String::from_str("multiple"));
        let kind = if substring && insensitive {
            MatchKind::SubstringCaseInsensitive
        } else if substring {
            MatchKind::Substring
        } else if insensitive {
            MatchKind::CaseInsensitive
        } else {
            MatchKind::Exact
        };
        FilterOpts { multiple, kind }
    }
}

} // verus!
