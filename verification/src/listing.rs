//! Ordering of directory listings: names are put in lexicographic order of
//! their characters, so that the same directory always lists the same way.

use vstd::prelude::*;
use vstd::seq_lib::to_multiset_build;
use vstd::seq_lib::to_multiset_insert;
use vstd::seq_lib::lemma_sorted_unique;
use crate::text::chars_of;

verus! {

/// The texts of a sequence of strings.
pub open spec fn texts(names: Seq<String>) -> Seq<Seq<char>> {
    names.map_values(|name: String| name@)
}

/// Lexicographic order on texts, character by character by code point: a
/// text comes before every text that it is a beginning of.
pub open spec fn lex_le(a: Seq<char>, b: Seq<char>) -> bool
    decreases a.len(),
{
    if a.len() == 0 {
        true
    } else if b.len() == 0 {
        false
    } else if a[0] != b[0] {
        a[0] < b[0]
    } else {
        lex_le(a.drop_first(), b.drop_first())
    }
}

/// A sequence of texts in which each comes before all that follow it.
pub open spec fn sorted(names: Seq<Seq<char>>) -> bool {
    forall|i: int, j: int| 0 <= i <= j < names.len() ==> lex_le(names[i], names[j])
}

/// Of two texts, one comes before the other.
pub proof fn lemma_lex_le_total(a: Seq<char>, b: Seq<char>)
    ensures
        lex_le(a, b) || lex_le(b, a),
    decreases a.len(),
{
    if a.len() > 0 && b.len() > 0 {
        if a[0] == b[0] {
            lemma_lex_le_total(a.drop_first(), b.drop_first());
        }
    }
}

/// The order is transitive.
pub proof fn lemma_lex_le_transitive(a: Seq<char>, b: Seq<char>, c: Seq<char>)
    requires
        lex_le(a, b),
        lex_le(b, c),
    ensures
        lex_le(a, c),
    decreases a.len(),
{
    if a.len() > 0 && b.len() > 0 && c.len() > 0 && a[0] == b[0] && b[0] == c[0] {
        lemma_lex_le_transitive(a.drop_first(), b.drop_first(), c.drop_first());
    }
}

/// Two texts that come before each other are the same text.
pub proof fn lemma_lex_le_antisymmetric(a: Seq<char>, b: Seq<char>)
    requires
        lex_le(a, b),
        lex_le(b, a),
    ensures
        a == b,
    decreases a.len(),
{
    if a.len() > 0 && b.len() > 0 {
        lemma_lex_le_antisymmetric(a.drop_first(), b.drop_first());
        assert(a =~= seq![a[0]] + a.drop_first());
    }
}

/// Whether `a` comes before `b`, or is the same text.
pub fn text_le(a: &Vec<char>, b: &Vec<char>) -> (le: bool)
    ensures
        le == lex_le(a@, b@),
{
    let mut i: usize = 0;
    assert(a@.subrange(0, a@.len() as int) =~= a@);
    assert(b@.subrange(0, b@.len() as int) =~= b@);
    loop
        invariant
            i <= a.len(),
            i <= b.len(),
            lex_le(a@, b@) == lex_le(
                a@.subrange(i as int, a@.len() as int),
                b@.subrange(i as int, b@.len() as int),
            ),
        decreases a.len() - i,
    {
        let ghost rest_a = a@.subrange(i as int, a@.len() as int);
        let ghost rest_b = b@.subrange(i as int, b@.len() as int);
        if i == a.len() {
            return true;
        }
        if i == b.len() {
            return false;
        }
        if a[i] != b[i] {
            return a[i] < b[i];
        }
        assert(rest_a.drop_first() =~= a@.subrange(i + 1, a@.len() as int));
        assert(rest_b.drop_first() =~= b@.subrange(i + 1, b@.len() as int));
        i = i + 1;
    }
}

/// The place of `name` among the sorted `names`: behind every name that
/// comes before it or is the same, in front of the others.
fn place_of(names: &Vec<String>, name: &Vec<char>) -> (pos: usize)
    requires
        sorted(texts(names@)),
    ensures
        pos <= names.len(),
        forall|k: int| 0 <= k < pos ==> lex_le(#[trigger] texts(names@)[k], name@),
        forall|k: int| pos <= k < names.len() ==> lex_le(name@, #[trigger] texts(names@)[k]),
{
    let n: usize = names.len();
    let mut pos: usize = 0;
    while pos < n
        invariant
            n == names.len(),
            pos <= n,
            sorted(texts(names@)),
            forall|k: int| 0 <= k < pos ==> lex_le(#[trigger] texts(names@)[k], name@),
        decreases n - pos,
    {
        let other = chars_of(names[pos].as_str());
        assert(other@ == texts(names@)[pos as int]);
        if !text_le(&other, name) {
            proof {
                lemma_lex_le_total(other@, name@);
                assert forall|k: int| pos <= k < names.len() implies lex_le(
                    name@,
                    #[trigger] texts(names@)[k],
                ) by {
                    lemma_lex_le_transitive(name@, other@, texts(names@)[k]);
                }
            }
            return pos;
        }
        pos = pos + 1;
    }
    pos
}

/// Puts `names` in lexicographic order. The result holds the same names,
/// each as often as before.
pub fn sort_names(names: Vec<String>) -> (out: Vec<String>)
    ensures
        sorted(texts(out@)),
        texts(out@).to_multiset() == texts(names@).to_multiset(),
{
    let mut out: Vec<String> = Vec::new();
    let ghost all = names@;
    assert(texts(all.subrange(0, 0)) =~= texts(out@));
    for name in it: names
        invariant
            it.seq() == all,
            sorted(texts(out@)),
            texts(out@).to_multiset() == texts(all.subrange(0, it.index() as int)).to_multiset(),
    {
        let key = chars_of(name.as_str());
        let pos = place_of(&out, &key);
        let ghost before = texts(out@);
        out.insert(pos, name);
        proof {
            let after = texts(out@);
            assert(after =~= before.insert(pos as int, key@));
            to_multiset_insert(before, pos as int, key@);
            let seen = texts(all.subrange(0, it.index() as int));
            let grown = texts(all.subrange(0, it.index() + 1));
            assert(grown =~= seen.push(key@));
            to_multiset_build(seen, key@);
            assert forall|i: int, j: int| 0 <= i <= j < after.len() implies lex_le(
                after[i],
                after[j],
            ) by {
                if i == j {
                    lemma_lex_le_total(after[i], after[i]);
                }
            }
        }
    }
    assert(all.subrange(0, all.len() as int) =~= all);
    out
}

/// A listing is determined by the names in it: two sorted sequences that
/// hold the same names, each as often, are the same sequence.
pub proof fn law_sorted_listing_is_unique(first: Seq<Seq<char>>, second: Seq<Seq<char>>)
    requires
        sorted(first),
        sorted(second),
        first.to_multiset() == second.to_multiset(),
    ensures
        first == second,
{
    let leq = |a: Seq<char>, b: Seq<char>| lex_le(a, b);
    assert forall|a: Seq<char>| #[trigger] leq(a, a) by {
        lemma_lex_le_total(a, a);
    }
    assert forall|a: Seq<char>, b: Seq<char>| #[trigger] leq(a, b) && #[trigger] leq(b, a) implies a
        == b by {
        lemma_lex_le_antisymmetric(a, b);
    }
    assert forall|a: Seq<char>, b: Seq<char>, c: Seq<char>| #[trigger]
        leq(a, b) && #[trigger] leq(b, c) implies leq(a, c) by {
        lemma_lex_le_transitive(a, b, c);
    }
    assert forall|a: Seq<char>, b: Seq<char>| #[trigger] leq(a, b) || #[trigger] leq(b, a) by {
        lemma_lex_le_total(a, b);
    }
    lemma_sorted_unique(first, second, leq);
}

} // verus!
