//! Topic names: a stream name trimmed and lower-cased.

use vstd::prelude::*;

verus! {

/// What `str::trim` returns for a string.
pub uninterp spec fn trimmed(s: Seq<char>) -> Seq<char>;

/// What `str::to_lowercase` returns for a string.
pub uninterp spec fn lower_of(s: Seq<char>) -> Seq<char>;

/// The normal form of a topic name: surrounding white space removed, then
/// lower-cased. Two names denote the same topic when their normal forms agree.
pub open spec fn normalized(s: Seq<char>) -> Seq<char> {
    lower_of(trimmed(s))
}

/// Relies on `str::trim`: the result depends on the characters alone, and an
/// empty string stays empty.
#[verifier::external_body]
fn trim_str(s: &str) -> (r: String)
    ensures
        r@ == trimmed(s@),
        s@.len() == 0 ==> r@.len() == 0,
{
    s.trim().to_string()
}

/// Relies on `str::to_lowercase`: the result depends on the characters alone,
/// and an empty string stays empty.
#[verifier::external_body]
pub(crate) fn lowercase(s: &str) -> (r: String)
    ensures
        r@ == lower_of(s@),
        s@.len() == 0 ==> r@.len() == 0,
{
    s.to_lowercase()
}

/// The topic that a stream name typed by an operator denotes.
pub fn normalize_stream(stream: &str) -> (r: String)
    ensures
        r@ == normalized(stream@),
{
    let t = trim_str(stream);
    lowercase(t.as_str())
}

/// The topics of a list of strings, as character sequences.
pub open spec fn topic_seq(v: Seq<String>) -> Seq<Seq<char>> {
    v.map_values(|s: String| s@)
}

/// The set of topics that a list holds.
pub open spec fn topic_set(v: Seq<String>) -> Set<Seq<char>> {
    topic_seq(v).to_set()
}

/// A list that holds each topic once.
pub open spec fn distinct(v: Seq<String>) -> bool {
    topic_seq(v).no_duplicates()
}

proof fn lemma_push(v: Seq<String>, t: String)
    ensures
        topic_seq(v.push(t)) == topic_seq(v).push(t@),
        topic_set(v.push(t)) == topic_set(v).insert(t@),
{
    assert(topic_seq(v.push(t)) =~= topic_seq(v).push(t@));
    topic_seq(v).lemma_push_to_set_commute(t@);
}

proof fn lemma_take_succ(v: Seq<String>, i: int)
    requires
        0 <= i < v.len(),
    ensures
        topic_set(v.take(i + 1)) == topic_set(v.take(i)).insert(v[i]@),
{
    assert(v.take(i + 1) =~= v.take(i).push(v[i]));
    lemma_push(v.take(i), v[i]);
}

proof fn lemma_remove(v: Seq<String>, i: int)
    requires
        0 <= i < v.len(),
        distinct(v),
    ensures
        distinct(v.remove(i)),
        topic_set(v.remove(i)) == topic_set(v).remove(v[i]@),
{
    let s = topic_seq(v);
    let r = topic_seq(v.remove(i));
    assert(r =~= s.remove(i));
    assert forall|a: int, b: int| 0 <= a < b < r.len() implies r[a] != r[b] by {
        let a2 = if a < i { a } else { a + 1 };
        let b2 = if b < i { b } else { b + 1 };
        assert(r[a] == s[a2] && r[b] == s[b2]);
    }
    assert forall|x: Seq<char>| r.contains(x) <==> s.contains(x) && x != s[i] by {
        if r.contains(x) {
            let k = choose|k: int| 0 <= k < r.len() && r[k] == x;
            let k2 = if k < i { k } else { k + 1 };
            assert(s[k2] == x);
        }
        if s.contains(x) && x != s[i] {
            let k = choose|k: int| 0 <= k < s.len() && s[k] == x;
            if k < i {
                assert(r[k] == x);
            } else {
                assert(r[k - 1] == x);
            }
        }
    }
    assert(r.to_set() =~= s.to_set().remove(s[i]));
}

/// Where a topic stands in a list.
pub(crate) fn find_topic(v: &Vec<String>, t: &String) -> (r: Option<usize>)
    ensures
        match r {
            Some(i) => i < v@.len() && v@[i as int]@ == t@,
            None => !topic_set(v@).contains(t@),
        },
{
    let mut i: usize = 0;
    while i < v.len()
        invariant
            i <= v@.len(),
            forall|k: int| 0 <= k < i ==> v@[k]@ != t@,
        decreases v@.len() - i,
    {
        if v[i] == *t {
            return Some(i);
        }
        i = i + 1;
    }
    assert(!topic_seq(v@).contains(t@)) by {
        if topic_seq(v@).contains(t@) {
            let k = choose|k: int| 0 <= k < v@.len() && topic_seq(v@)[k] == t@;
            assert(v@[k]@ == t@);
        }
    }
    None
}

/// Adds a topic to a list that holds each topic once, unless it is there.
/// Says whether it was added.
pub(crate) fn insert_topic(v: &mut Vec<String>, t: String) -> (added: bool)
    requires
        distinct(old(v)@),
    ensures
        distinct(final(v)@),
        topic_set(final(v)@) == topic_set(old(v)@).insert(t@),
        added == !topic_set(old(v)@).contains(t@),
{
    match find_topic(v, &t) {
        Some(i) => {
            assert(topic_seq(v@)[i as int] == t@);
            assert(topic_set(v@).insert(t@) =~= topic_set(v@));
            false
        },
        None => {
            proof {
                lemma_push(v@, t);
            }
            v.push(t);
            true
        },
    }
}

/// Takes a topic out of a list that holds each topic once. Says whether it
/// was there.
pub(crate) fn remove_topic(v: &mut Vec<String>, t: &String) -> (removed: bool)
    requires
        distinct(old(v)@),
    ensures
        distinct(final(v)@),
        topic_set(final(v)@) == topic_set(old(v)@).remove(t@),
        removed == topic_set(old(v)@).contains(t@),
{
    match find_topic(v, t) {
        Some(i) => {
            proof {
                lemma_remove(v@, i as int);
                assert(topic_seq(v@)[i as int] == t@);
            }
            v.remove(i);
            true
        },
        None => {
            assert(topic_set(v@).remove(t@) =~= topic_set(v@));
            false
        },
    }
}

/// Adds each topic of `ts` that `v` does not hold.
pub(crate) fn insert_all(v: &mut Vec<String>, ts: &Vec<String>)
    requires
        distinct(old(v)@),
    ensures
        distinct(final(v)@),
        topic_set(final(v)@) == topic_set(old(v)@).union(topic_set(ts@)),
{
    let ghost start = topic_set(v@);
    let mut i: usize = 0;
    while i < ts.len()
        invariant
            i <= ts@.len(),
            distinct(v@),
            topic_set(v@) == start.union(topic_set(ts@.take(i as int))),
        decreases ts@.len() - i,
    {
        proof {
            lemma_take_succ(ts@, i as int);
        }
        insert_topic(v, ts[i].clone());
        assert(topic_set(v@) =~= start.union(topic_set(ts@.take(i as int + 1))));
        i = i + 1;
    }
    assert(ts@.take(i as int) =~= ts@);
}

/// Takes out of `v` each topic of `ts`.
pub(crate) fn remove_all(v: &mut Vec<String>, ts: &Vec<String>)
    requires
        distinct(old(v)@),
    ensures
        distinct(final(v)@),
        topic_set(final(v)@) == topic_set(old(v)@).difference(topic_set(ts@)),
{
    let ghost start = topic_set(v@);
    let mut i: usize = 0;
    while i < ts.len()
        invariant
            i <= ts@.len(),
            distinct(v@),
            topic_set(v@) == start.difference(topic_set(ts@.take(i as int))),
        decreases ts@.len() - i,
    {
        proof {
            lemma_take_succ(ts@, i as int);
        }
        remove_topic(v, &ts[i]);
        assert(topic_set(v@) =~= start.difference(topic_set(ts@.take(i as int + 1))));
        i = i + 1;
    }
    assert(ts@.take(i as int) =~= ts@);
}

/// Adds each topic of `ts` that `within` holds and `v` does not.
pub(crate) fn insert_all_within(v: &mut Vec<String>, ts: &Vec<String>, within: &Vec<String>)
    requires
        distinct(old(v)@),
    ensures
        distinct(final(v)@),
        topic_set(final(v)@) == topic_set(old(v)@).union(topic_set(ts@).intersect(topic_set(within@))),
{
    let ghost start = topic_set(v@);
    let ghost w = topic_set(within@);
    let mut i: usize = 0;
    while i < ts.len()
        invariant
            i <= ts@.len(),
            distinct(v@),
            w == topic_set(within@),
            topic_set(v@) == start.union(topic_set(ts@.take(i as int)).intersect(w)),
        decreases ts@.len() - i,
    {
        proof {
            lemma_take_succ(ts@, i as int);
        }
        match find_topic(within, &ts[i]) {
            Some(j) => {
                assert(topic_seq(within@)[j as int] == ts@[i as int]@);
                insert_topic(v, ts[i].clone());
            },
            None => {},
        }
        assert(topic_set(v@) =~= start.union(topic_set(ts@.take(i as int + 1)).intersect(w)));
        i = i + 1;
    }
    assert(ts@.take(i as int) =~= ts@);
}

/// Takes out of `v` each topic of `ts` that `keep` does not hold.
pub(crate) fn remove_all_outside(v: &mut Vec<String>, ts: &Vec<String>, keep: &Vec<String>)
    requires
        distinct(old(v)@),
    ensures
        distinct(final(v)@),
        topic_set(final(v)@) == topic_set(old(v)@).difference(topic_set(ts@).difference(topic_set(keep@))),
{
    let ghost start = topic_set(v@);
    let ghost k = topic_set(keep@);
    let mut i: usize = 0;
    while i < ts.len()
        invariant
            i <= ts@.len(),
            distinct(v@),
            k == topic_set(keep@),
            topic_set(v@) == start.difference(topic_set(ts@.take(i as int)).difference(k)),
        decreases ts@.len() - i,
    {
        proof {
            lemma_take_succ(ts@, i as int);
        }
        match find_topic(keep, &ts[i]) {
            Some(j) => {
                assert(topic_seq(keep@)[j as int] == ts@[i as int]@);
            },
            None => {
                remove_topic(v, &ts[i]);
            },
        }
        assert(topic_set(v@) =~= start.difference(topic_set(ts@.take(i as int + 1)).difference(k)));
        i = i + 1;
    }
    assert(ts@.take(i as int) =~= ts@);
}

/// A copy of a list of topics.
pub(crate) fn copy_topics(v: &Vec<String>) -> (r: Vec<String>)
    ensures
        r@ == v@,
{
    let mut out: Vec<String> = Vec::new();
    let mut i: usize = 0;
    while i < v.len()
        invariant
            i <= v@.len(),
            out@ == v@.take(i as int),
        decreases v@.len() - i,
    {
        out.push(v[i].clone());
        assert(out@ =~= v@.take(i as int + 1));
        i = i + 1;
    }
    assert(v@.take(i as int) =~= v@);
    out
}

} // verus!
