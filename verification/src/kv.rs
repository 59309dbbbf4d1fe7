//! Name-keyed pair lists with map semantics: a repeated name overwrites its
//! value in place, a fresh name is appended. Labels, environment variables,
//! extra hosts and ulimits all accumulate this way.

use vstd::prelude::*;
use vstd::pervasive::VecAdditionalExecFns;

verus! {

/// The value bound to `key`, scanning in order; with the maintained shape
/// (one entry per name) the first match is the only one.
pub open spec fn spec_lookup<V>(s: Seq<(String, V)>, key: Seq<char>) -> Option<V>
    decreases s.len(),
{
    if s.len() == 0 {
        None
    } else if s[0].0@ == key {
        Some(s[0].1)
    } else {
        spec_lookup(s.drop_first(), key)
    }
}

/// The list after binding `key` to `value`: the first entry with that name
/// is replaced in place, or the pair is appended when the name is new.
pub open spec fn spec_upsert<V>(s: Seq<(String, V)>, key: String, value: V) -> Seq<(String, V)>
    decreases s.len(),
{
    if s.len() == 0 {
        seq![(key, value)]
    } else if s[0].0@ == key@ {
        seq![(key, value)] + s.drop_first()
    } else {
        seq![s[0]] + spec_upsert(s.drop_first(), key, value)
    }
}

proof fn lemma_upsert_found<V>(s: Seq<(String, V)>, key: String, value: V, i: int)
    requires
        0 <= i < s.len(),
        s[i].0@ == key@,
        forall|j: int| 0 <= j < i ==> (#[trigger] s[j]).0@ != key@,
    ensures
        spec_upsert(s, key, value) == s.update(i, (key, value)),
    decreases i,
{
    if i == 0 {
        assert(spec_upsert(s, key, value) =~= s.update(0, (key, value)));
    } else {
        lemma_upsert_found(s.drop_first(), key, value, i - 1);
        assert(spec_upsert(s, key, value) =~= s.update(i, (key, value)));
    }
}

proof fn lemma_upsert_fresh<V>(s: Seq<(String, V)>, key: String, value: V)
    requires
        forall|j: int| 0 <= j < s.len() ==> (#[trigger] s[j]).0@ != key@,
    ensures
        spec_upsert(s, key, value) == s.push((key, value)),
    decreases s.len(),
{
    if s.len() == 0 {
        assert(spec_upsert(s, key, value) =~= s.push((key, value)));
    } else {
        lemma_upsert_fresh(s.drop_first(), key, value);
        assert(spec_upsert(s, key, value) =~= s.push((key, value)));
    }
}

/// Binds `key` to `value`, overwriting in place or appending.
pub fn upsert<V>(vec: &mut Vec<(String, V)>, key: String, value: V)
    ensures
        final(vec)@ == spec_upsert(old(vec)@, key, value),
{
    let n = vec.len();
    let mut i: usize = 0;
    while i < n
        invariant
            n == vec@.len(),
            i <= n,
            *vec == *old(vec),
            forall|j: int| 0 <= j < i ==> (#[trigger] vec@[j]).0@ != key@,
        decreases n - i,
    {
        if vec[i].0 == key {
            proof {
                lemma_upsert_found(vec@, key, value, i as int);
            }
            vec.set(i, (key, value));
            return ;
        }
        i += 1;
    }
    proof {
        lemma_upsert_fresh(vec@, key, value);
    }
    vec.push((key, value));
}

/// The value bound to a name, if any.
pub fn lookup<'a, V>(vec: &'a Vec<(String, V)>, key: &String) -> (r: Option<&'a V>)
    ensures
        match r {
            Some(v) => spec_lookup(vec@, key@) == Some(*v),
            None => spec_lookup(vec@, key@) is None,
        },
{
    let n = vec.len();
    let mut i: usize = 0;
    proof {
        assert(vec@.skip(0) =~= vec@);
    }
    while i < n
        invariant
            n == vec@.len(),
            i <= n,
            spec_lookup(vec@, key@) == spec_lookup(vec@.skip(i as int), key@),
        decreases n - i,
    {
        proof {
            assert(vec@.skip(i as int)[0] == vec@[i as int]);
            assert(vec@.skip(i as int).drop_first() =~= vec@.skip(i + 1));
        }
        if vec[i].0 == *key {
            return Some(&vec[i].1);
        }
        i += 1;
    }
    proof {
        assert(vec@.skip(n as int) =~= Seq::<(String, V)>::empty());
    }
    None
}

/// Binding a name makes exactly that name's value visible: looking the
/// name up afterwards yields the new value.
pub proof fn lemma_upsert_lookup_same<V>(s: Seq<(String, V)>, key: String, value: V)
    ensures
        spec_lookup(spec_upsert(s, key, value), key@) == Some(value),
    decreases s.len(),
{
    if s.len() != 0 && s[0].0@ != key@ {
        lemma_upsert_lookup_same(s.drop_first(), key, value);
        assert(spec_upsert(s, key, value).drop_first() =~= spec_upsert(
            s.drop_first(),
            key,
            value,
        ));
    }
}

/// Binding a name leaves every other name's value as it was.
pub proof fn lemma_upsert_lookup_other<V>(
    s: Seq<(String, V)>,
    key: String,
    value: V,
    other: Seq<char>,
)
    requires
        other != key@,
    ensures
        spec_lookup(spec_upsert(s, key, value), other) == spec_lookup(s, other),
    decreases s.len(),
{
    let s2 = spec_upsert(s, key, value);
    if s.len() == 0 {
        assert(s2.drop_first() =~= Seq::<(String, V)>::empty());
        assert(spec_lookup(s2.drop_first(), other) is None);
    } else if s[0].0@ == key@ {
        assert(s2.drop_first() =~= s.drop_first());
        assert(s2[0] == (key, value));
    } else {
        lemma_upsert_lookup_other(s.drop_first(), key, value, other);
        assert(s2[0] == s[0]);
        assert(s2.drop_first() =~= spec_upsert(s.drop_first(), key, value));
    }
}

} // verus!
