//! URL templates: filling the placeholders of a template from path parameters,
//! and writing query parameters out as a query string.

use crate::common::{Pairs, TextMap};
use crate::text::{append_chars, chars_of, replace_all, replaced, string_of};
use vstd::prelude::*;

verus! {

/// The placeholder of the parameter `name`: the name in braces.
pub open spec fn placeholder(name: Seq<char>) -> Seq<char> {
    seq!['{'] + name + seq!['}']
}

/// `template` after the placeholders of `params` were filled, one parameter
/// after the other in the order of `params`: every occurrence of a placeholder
/// is replaced by the value as it stands, without escaping.
pub open spec fn substituted(template: Seq<char>, params: Pairs) -> Seq<char>
    decreases params.len(),
{
    if params.len() == 0 {
        template
    } else {
        replaced(
            substituted(template, params.drop_last()),
            placeholder(params.last().0),
            params.last().1,
        )
    }
}

/// One parameter as it stands in a query string: key, `=`, value.
pub open spec fn pair_text(pair: (Seq<char>, Seq<char>)) -> Seq<char> {
    pair.0 + seq!['='] + pair.1
}

/// The query string of `params`: the parameters in order, with `&` between them.
pub open spec fn query_text(params: Pairs) -> Seq<char>
    decreases params.len(),
{
    if params.len() == 0 {
        Seq::<char>::empty()
    } else if params.len() == 1 {
        pair_text(params[0])
    } else {
        query_text(params.drop_last()) + seq!['&'] + pair_text(params.last())
    }
}

/// The characters of the placeholder of `name`.
fn placeholder_of(name: &str) -> (r: Vec<char>)
    ensures
        r@ == placeholder(name@),
{
    let mut out: Vec<char> = Vec::new();
    out.push('{');
    let name_chars = chars_of(name);
    append_chars(&mut out, &name_chars);
    out.push('}');
    proof {
        assert(out@ =~= placeholder(name@));
    }
    out
}

/// Fills the placeholders of `template` from `params`.
pub fn substitute(template: &str, params: &TextMap) -> (r: String)
    ensures
        r@ == substituted(template@, params@),
{
    let mut current = chars_of(template);
    let mut i: usize = 0;
    while i < params.len()
        invariant
            i <= params@.len(),
            current@ == substituted(template@, params@.take(i as int)),
        decreases params@.len() - i,
    {
        match params.get_at(i) {
            Some(entry) => {
                proof {
                    let next = params@.take(i + 1);
                    assert(next.drop_last() == params@.take(i as int));
                    assert(next.last() == params@[i as int]);
                }
                let pattern = placeholder_of(entry.0.as_str());
                let value = chars_of(entry.1.as_str());
                current = replace_all(&current, &pattern, &value);
            },
            None => {},
        }
        i = i + 1;
    }
    proof {
        assert(params@.take(params@.len() as int) == params@);
    }
    string_of(&current)
}

/// Writes `params` out as a query string.
pub fn compose_query(params: &TextMap) -> (r: String)
    ensures
        r@ == query_text(params@),
{
    let mut out: Vec<char> = Vec::new();
    let mut i: usize = 0;
    while i < params.len()
        invariant
            i <= params@.len(),
            out@ == query_text(params@.take(i as int)),
        decreases params@.len() - i,
    {
        match params.get_at(i) {
            Some(entry) => {
                proof {
                    let next = params@.take(i + 1);
                    assert(next.drop_last() == params@.take(i as int));
                    assert(next.last() == params@[i as int]);
                    assert(next[0] == params@[0]);
                }
                let ghost before = out@;
                if i > 0 {
                    out.push('&');
                }
                let key = chars_of(entry.0.as_str());
                append_chars(&mut out, &key);
                out.push('=');
                let value = chars_of(entry.1.as_str());
                append_chars(&mut out, &value);
                proof {
                    let pair = pair_text(params@[i as int]);
                    if i > 0 {
                        assert(out@ =~= before + seq!['&'] + pair);
                    } else {
                        assert(out@ =~= pair);
                    }
                }
            },
            None => {},
        }
        i = i + 1;
    }
    proof {
        assert(params@.take(params@.len() as int) == params@);
    }
    string_of(&out)
}

} // verus!
