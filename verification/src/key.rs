//! The correlation key: a bug's identifier in square brackets, carried in
//! the title of the issue that mirrors the bug.

use vstd::prelude::*;
use crate::decimal::{decimal, is_digit, lemma_decimal_digits, lemma_decimal_injective, push_decimal};
use crate::text::{chars_of, contains_seq, first_occurrence, occurs_at};

verus! {

/// The key of the bug `id`: an opening bracket, the decimal numeral of
/// `id`, a closing bracket.
pub open spec fn correlation_key(id: nat) -> Seq<char> {
    seq!['['] + decimal(id) + seq![']']
}

/// A title belongs to the bug `id` when the bug's key stands somewhere in
/// it, brackets included.
pub open spec fn title_matches(title: Seq<char>, id: nat) -> bool {
    contains_seq(title, correlation_key(id))
}

/// Brackets stand at the two ends of a key and nowhere else in it.
pub proof fn lemma_key_shape(id: nat)
    ensures
        correlation_key(id).len() == decimal(id).len() + 2,
        correlation_key(id).len() >= 3,
        correlation_key(id)[0] == '[',
        correlation_key(id).last() == ']',
        forall|i: int|
            0 < i < correlation_key(id).len() - 1 ==> is_digit(#[trigger] correlation_key(id)[i]),
        correlation_key(id).subrange(1, correlation_key(id).len() - 1) == decimal(id),
{
    lemma_decimal_digits(id);
    let key = correlation_key(id);
    assert forall|i: int| 0 < i < key.len() - 1 implies is_digit(#[trigger] key[i]) by {
        assert(key[i] == decimal(id)[i - 1]);
    }
    assert(key.subrange(1, key.len() - 1) =~= decimal(id));
}

/// A key holds the key of its own bug and of no other: the key of 12 is
/// not found in the key of 123, nor the other way round.
pub proof fn lemma_key_matches_own_id_only(n: nat, m: nat)
    ensures
        title_matches(correlation_key(n), m) <==> n == m,
{
    let hay = correlation_key(n);
    let needle = correlation_key(m);
    lemma_key_shape(n);
    lemma_key_shape(m);
    if n == m {
        assert(hay.subrange(0, hay.len() as int) =~= hay);
        assert(occurs_at(hay, needle, 0));
    }
    if title_matches(hay, m) {
        let at = choose|at: int| occurs_at(hay, needle, at);
        let part = hay.subrange(at, at + needle.len());
        assert(part[0] == hay[at]);
        assert(at == 0) by {
            if 0 < at {
                if at < hay.len() - 1 {
                    assert(is_digit(hay[at]));
                }
            }
        }
        let end = needle.len() - 1;
        assert(part[end] == hay[end]);
        assert(end == hay.len() - 1) by {
            if end < hay.len() - 1 {
                assert(is_digit(hay[end]));
            }
        }
        assert(part =~= hay);
        lemma_decimal_injective(n, m);
    }
}

/// The key of the bug `id`, to stand in a title.
pub fn embed(id: u32) -> (key: String)
    ensures
        key@ == correlation_key(id as nat),
{
    let mut key = String::new();
    key.push('[');
    push_decimal(&mut key, id);
    key.push(']');
    key
}

/// Whether `title` carries the key of the bug `id`, at any place in it.
pub fn matches(title: &str, id: u32) -> (hit: bool)
    ensures
        hit == title_matches(title@, id as nat),
{
    let key = embed(id);
    let hay = chars_of(title);
    let needle = chars_of(key.as_str());
    first_occurrence(&hay, &needle).is_some()
}

} // verus!
