//! Query predicates for the tracker, given as `key=value`.

use vstd::prelude::*;
use crate::text::chars_of;

verus! {

/// A predicate as the tracker takes it: a key and a value.
pub type Param = (Seq<char>, Seq<char>);

/// The only equals sign of `s` stands at `at`.
pub open spec fn sole_equals_at(s: Seq<char>, at: int) -> bool {
    &&& 0 <= at < s.len()
    &&& s[at] == '='
    &&& forall|i: int| 0 <= i < s.len() && i != at ==> s[i] != '='
}

/// The predicate that `s` spells: what stands before and behind its
/// equals sign, where `s` holds exactly one. Any other text spells none.
pub open spec fn param_of(s: Seq<char>) -> Option<Param> {
    if exists|at: int| sole_equals_at(s, at) {
        let at = choose|at: int| sole_equals_at(s, at);
        Some((s.take(at), s.skip(at + 1)))
    } else {
        None
    }
}

/// The predicates that a list of texts spells, in the order of the list;
/// texts that spell none are left out.
pub open spec fn params_of(values: Seq<Seq<char>>) -> Seq<Param> {
    values.filter_map(|s: Seq<char>| param_of(s))
}

/// `s` is `key`, an equals sign and `value`, and neither part holds an
/// equals sign of its own.
pub open spec fn splits_into(s: Seq<char>, key: Seq<char>, value: Seq<char>) -> bool {
    &&& s == key + seq!['='] + value
    &&& !key.contains('=')
    &&& !value.contains('=')
}

/// A text spells the predicate `(key, value)` exactly when it is
/// `key=value` with no further equals sign; so a text spells at most one
/// predicate, and the parts of a well-formed text are found again.
pub proof fn lemma_param_of_splits(s: Seq<char>, key: Seq<char>, value: Seq<char>)
    ensures
        param_of(s) == Some((key, value)) <==> splits_into(s, key, value),
{
    if splits_into(s, key, value) {
        let at = key.len() as int;
        assert(s[at] == '=');
        assert forall|i: int| 0 <= i < s.len() && i != at implies s[i] != '=' by {
            if i < at {
                assert(key[i] == s[i]);
            } else {
                assert(value[i - at - 1] == s[i]);
            }
        }
        assert(sole_equals_at(s, at));
        let found = choose|at: int| sole_equals_at(s, at);
        assert(found == at);
        assert(s.take(at) =~= key);
        assert(s.skip(at + 1) =~= value);
    }
    if param_of(s) == Some((key, value)) {
        let at = choose|at: int| sole_equals_at(s, at);
        assert(key == s.take(at));
        assert(value == s.skip(at + 1));
        assert(s =~= key + seq!['='] + value);
        assert(!key.contains('=')) by {
            if key.contains('=') {
                let i = choose|i: int| 0 <= i < key.len() && key[i] == '=';
                assert(s[i] == '=');
            }
        }
        assert(!value.contains('=')) by {
            if value.contains('=') {
                let i = choose|i: int| 0 <= i < value.len() && value[i] == '=';
                assert(s[at + 1 + i] == '=');
            }
        }
    }
}

/// The characters of `chars` from `from` up to `to`, as a string.
fn string_of(chars: &Vec<char>, from: usize, to: usize) -> (s: String)
    requires
        from <= to <= chars.len(),
    ensures
        s@ == chars@.subrange(from as int, to as int),
{
    let mut s = String::new();
    let mut i: usize = from;
    while i < to
        invariant
            from <= i <= to <= chars.len(),
            s@ == chars@.subrange(from as int, i as int),
        decreases to - i,
    {
        s.push(chars[i]);
        assert(chars@.subrange(from as int, i + 1) =~= chars@.subrange(from as int, i as int).push(
            chars@[i as int],
        ));
        i += 1;
    }
    s
}

/// Reads one predicate. A text with exactly one equals sign gives the key
/// before it and the value behind it, either of which may be empty; a text
/// with none or with several gives nothing.
pub fn parse_query_param(value: &str) -> (param: Option<(String, String)>)
    ensures
        param.deep_view() == param_of(value@),
{
    let chars = chars_of(value);
    let n = chars.len();
    let mut at: usize = 0;
    while at < n && chars[at] != '='
        invariant
            n == chars.len(),
            at <= n,
            forall|i: int| 0 <= i < at ==> chars@[i] != '=',
        decreases n - at,
    {
        at += 1;
    }
    if at == n {
        assert(forall|k: int| !sole_equals_at(value@, k));
        return None;
    }
    let mut i: usize = at + 1;
    while i < n
        invariant
            chars@ == value@,
            n == chars.len(),
            at < i <= n,
            chars@[at as int] == '=',
            forall|j: int| at < j < i ==> chars@[j] != '=',
        decreases n - i,
    {
        if chars[i] == '=' {
            assert forall|k: int| !sole_equals_at(value@, k) by {
                if sole_equals_at(value@, k) {
                    if k == at {
                        assert(value@[i as int] != '=');
                    } else {
                        assert(value@[at as int] != '=');
                    }
                }
            }
            return None;
        }
        i += 1;
    }
    assert(sole_equals_at(value@, at as int));
    proof {
        let found = choose|k: int| sole_equals_at(value@, k);
        assert(found == at);
    }
    let key = string_of(&chars, 0, at);
    let val = string_of(&chars, at + 1, n);
    Some((key, val))
}

/// Reads a list of predicates, keeping the order and dropping the texts
/// that spell none.
pub fn parse_query_params(values: &Vec<String>) -> (params: Vec<(String, String)>)
    ensures
        params.deep_view() == params_of(values.deep_view()),
{
    let mut params: Vec<(String, String)> = Vec::new();
    let mut i: usize = 0;
    while i < values.len()
        invariant
            i <= values.len(),
            params.deep_view() == params_of(values.deep_view().take(i as int)),
        decreases values.len() - i,
    {
        let ghost before = params.deep_view();
        let parsed = parse_query_param(values[i].as_str());
        proof {
            let f = |s: Seq<char>| param_of(s);
            values.deep_view().lemma_filter_map_take_succ(f, i as int);
            assert(values.deep_view()[i as int] == values@[i as int]@);
        }
        match parsed {
            Some(pair) => {
                params.push(pair);
                assert(params.deep_view() =~= before.push(pair.deep_view()));
            },
            None => {},
        }
        i += 1;
    }
    assert(values.deep_view().take(values.len() as int) =~= values.deep_view());
    params
}

} // verus!
