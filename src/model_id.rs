use vstd::prelude::*;
use crate::error::RunnerError;

verus! {

/// The character that separates the provider tag from the model name.
pub const SEPARATOR: char = ':';

/// What `str::trim` makes of a string.
pub uninterp spec fn trimmed(s: Seq<char>) -> Seq<char>;

/// Relies on `str::trim`: leading and trailing whitespace removed, a result
/// that depends on the characters alone.
#[verifier::external_body]
fn trim(s: &str) -> (r: &str)
    ensures
        r@ == trimmed(s@),
{
    s.trim()
}

/// `i` is the position of the first separator in `s`.
pub open spec fn is_first_separator(s: Seq<char>, i: int) -> bool {
    &&& 0 <= i < s.len()
    &&& s[i] == SEPARATOR
    &&& forall|j: int| 0 <= j < i ==> s[j] != SEPARATOR
}

/// `s` holds at least one separator.
pub open spec fn has_separator(s: Seq<char>) -> bool {
    exists|i: int| 0 <= i < s.len() && s[i] == SEPARATOR
}

/// `s` split at its first separator: what stands before it, and everything after it.
pub open spec fn split_first(s: Seq<char>) -> Option<(Seq<char>, Seq<char>)> {
    if has_separator(s) {
        let i = choose|i: int| is_first_separator(s, i);
        Some((s.take(i), s.skip(i + 1)))
    } else {
        None
    }
}

/// A model identifier parsed into provider tag and model name; absent when it
/// has no separator or the model name is blank.
pub open spec fn parse_model_id(s: Seq<char>) -> Option<(Seq<char>, Seq<char>)> {
    match split_first(s) {
        Some((tag, model)) => if trimmed(model).len() == 0 {
            None
        } else {
            Some((tag, model))
        },
        None => None,
    }
}

proof fn lemma_first_separator_unique(s: Seq<char>, i: int, k: int)
    requires
        is_first_separator(s, i),
        is_first_separator(s, k),
    ensures
        i == k,
{
    if i < k {
        assert(s[i] != SEPARATOR);
    } else if k < i {
        assert(s[k] != SEPARATOR);
    }
}

/// Splits `identifier` at its first separator into the part before it and the
/// part after it, kept verbatim even where it holds further separators.
pub fn split_at_first_separator(identifier: &str) -> (r: Option<(String, String)>)
    ensures
        match split_first(identifier@) {
            Some((tag, model)) => r matches Some((t, m)) && t@ == tag && m@ == model,
            None => r is None,
        },
{
    let n = identifier.unicode_len();
    let mut i: usize = 0;
    while i < n
        invariant
            n == identifier@.len(),
            i <= n,
            forall|j: int| 0 <= j < i ==> identifier@[j] != SEPARATOR,
        decreases n - i,
    {
        if identifier.get_char(i) == SEPARATOR {
            let ghost s = identifier@;
            assert(is_first_separator(s, i as int));
            assert(has_separator(s));
            proof {
                let k = choose|k: int| is_first_separator(s, k);
                lemma_first_separator_unique(s, i as int, k);
            }
            let tag = identifier.substring_char(0, i).to_owned();
            let model = identifier.substring_char(i + 1, n).to_owned();
            assert(tag@ =~= s.take(i as int));
            assert(model@ =~= s.skip(i + 1));
            return Some((tag, model));
        }
        i = i + 1;
    }
    None
}

/// Parses a model identifier `"<provider-tag>:<model-name>"`.
pub fn split_model(identifier: &str) -> (r: Result<(String, String), RunnerError>)
    ensures
        match parse_model_id(identifier@) {
            Some((tag, model)) => r matches Ok((t, m)) && t@ == tag && m@ == model,
            None => r == Err::<(String, String), RunnerError>(RunnerError::InvalidFormat),
        },
{
    match split_at_first_separator(identifier) {
        Some((tag, model)) => {
            if trim(model.as_str()).unicode_len() == 0 {
                Err(RunnerError::InvalidFormat)
            } else {
                Ok((tag, model))
            }
        },
        None => Err(RunnerError::InvalidFormat),
    }
}

/// Parsing `"<tag>:<model>"` for a tag without separators gives back exactly
/// that tag and model, whatever separators the model holds, unless the model
/// is blank, in which case the identifier is rejected.
pub proof fn lemma_parse_model_id_exact(tag: Seq<char>, model: Seq<char>)
    requires
        forall|j: int| 0 <= j < tag.len() ==> tag[j] != SEPARATOR,
    ensures
        parse_model_id(tag + seq![SEPARATOR] + model) == if trimmed(model).len() == 0 {
            None
        } else {
            Some((tag, model))
        },
{
    let s = tag + seq![SEPARATOR] + model;
    let i = tag.len() as int;
    assert(s[i] == SEPARATOR);
    assert(is_first_separator(s, i));
    let k = choose|k: int| is_first_separator(s, k);
    lemma_first_separator_unique(s, i, k);
    assert(s.take(i) =~= tag);
    assert(s.skip(i + 1) =~= model);
}

} // verus!
