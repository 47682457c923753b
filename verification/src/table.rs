//! Association tables keyed by numeric id. The document's group and node
//! tables, and the built graph, are held as ordered key-value sequences with
//! unique keys; when coerced table keys collide, the entry occurring last
//! wins, and earlier entries are dropped.

use vstd::prelude::*;

verus! {

/// Whether the table holds an entry with key `k`.
pub open spec fn table_contains<V>(s: Seq<(u32, V)>, k: u32) -> bool {
    exists|i: int| 0 <= i < s.len() && (#[trigger] s[i]).0 == k
}

/// The value of the first entry with key `k`, if any.
pub open spec fn table_find<V>(s: Seq<(u32, V)>, k: u32) -> Option<V>
    decreases s.len(),
{
    if s.len() == 0 {
        None
    } else if s[0].0 == k {
        Some(s[0].1)
    } else {
        table_find(s.drop_first(), k)
    }
}

/// No two entries share a key.
pub open spec fn unique_keys<V>(s: Seq<(u32, V)>) -> bool {
    forall|i: int, j: int| 0 <= i < j < s.len() ==> (#[trigger] s[i]).0 != (#[trigger] s[j]).0
}

pub proof fn lemma_table_find_contains<V>(s: Seq<(u32, V)>, k: u32)
    ensures
        table_find(s, k) is Some <==> table_contains(s, k),
    decreases s.len(),
{
    if s.len() > 0 {
        lemma_table_find_contains(s.drop_first(), k);
        if s[0].0 == k {
        } else {
            assert(table_contains(s.drop_first(), k) ==> table_contains(s, k)) by {
                if table_contains(s.drop_first(), k) {
                    let i = choose|i: int| 0 <= i < s.drop_first().len() && s.drop_first()[i].0 == k;
                    assert(s[i + 1] == s.drop_first()[i]);
                }
            }
            assert(table_contains(s, k) ==> table_contains(s.drop_first(), k)) by {
                if table_contains(s, k) {
                    let i = choose|i: int| 0 <= i < s.len() && s[i].0 == k;
                    assert(i > 0);
                    assert(s.drop_first()[i - 1] == s[i]);
                }
            }
        }
    }
}

proof fn lemma_table_find_from<V>(s: Seq<(u32, V)>, k: u32, i: int)
    requires
        0 <= i <= s.len(),
        forall|j: int| 0 <= j < i ==> (#[trigger] s[j]).0 != k,
    ensures
        table_find(s, k) == table_find(s.skip(i), k),
    decreases i,
{
    if i > 0 {
        lemma_table_find_from(s, k, i - 1);
        assert(s.skip(i - 1)[0] == s[i - 1]);
        assert(s[i - 1].0 != k);
        assert(s.skip(i - 1).drop_first() =~= s.skip(i));
        assert(table_find(s.skip(i - 1), k) == table_find(s.skip(i), k));
    } else {
        assert(s.skip(0) =~= s);
    }
}

/// Look an entry up by key, scanning in table order.
pub fn table_get<'a, V>(table: &'a Vec<(u32, V)>, k: u32) -> (r: Option<&'a V>)
    ensures
        r matches Some(v) ==> table_find(table@, k) == Some(*v),
        r is None ==> table_find(table@, k) is None,
{
    let mut i: usize = 0;
    while i < table.len()
        invariant
            0 <= i <= table@.len(),
            forall|j: int| 0 <= j < i ==> (#[trigger] table@[j]).0 != k,
        decreases table@.len() - i,
    {
        let pair = &table[i];
        if pair.0 == k {
            proof {
                lemma_table_find_from(table@, k, i as int);
                assert(table@.skip(i as int)[0] == table@[i as int]);
            }
            return Some(&pair.1);
        }
        i += 1;
    }
    proof {
        lemma_table_find_from(table@, k, table@.len() as int);
        assert(table@.skip(table@.len() as int) =~= Seq::<(u32, V)>::empty());
    }
    None
}

/// Whether the table holds an entry with key `k`.
pub fn table_has<V>(table: &Vec<(u32, V)>, k: u32) -> (r: bool)
    ensures
        r == table_contains(table@, k),
{
    proof {
        lemma_table_find_contains(table@, k);
    }
    match table_get(table, k) {
        Some(_) => true,
        None => false,
    }
}

/// In a table with unique keys, the lookup of any entry's key finds that
/// entry's value.
pub proof fn lemma_table_find_at<V>(s: Seq<(u32, V)>, k: u32, i: int)
    requires
        unique_keys(s),
        0 <= i < s.len(),
        s[i].0 == k,
    ensures
        table_find(s, k) == Some(s[i].1),
{
    assert forall|j: int| 0 <= j < i implies (#[trigger] s[j]).0 != k by {
        assert(s[j].0 != s[i].0);
    }
    lemma_table_find_from(s, k, i);
    assert(s.skip(i)[0] == s[i]);
}

/// The table that keeps, of every run of entries sharing a key, only the
/// last one, in the order of the survivors.
pub open spec fn dedup_last<V>(s: Seq<(u32, V)>) -> Seq<(u32, V)>
    decreases s.len(),
{
    if s.len() == 0 {
        s
    } else {
        let rest = dedup_last(s.drop_first());
        if table_contains(s.drop_first(), s[0].0) {
            rest
        } else {
            seq![s[0]] + rest
        }
    }
}

pub proof fn lemma_dedup_contains<V>(s: Seq<(u32, V)>, k: u32)
    ensures
        table_contains(dedup_last(s), k) == table_contains(s, k),
    decreases s.len(),
{
    if s.len() == 0 {
    } else {
        lemma_dedup_contains(s.drop_first(), k);
        let rest = dedup_last(s.drop_first());
        assert(table_contains(s.drop_first(), k) ==> table_contains(s, k)) by {
            if table_contains(s.drop_first(), k) {
                let i = choose|i: int| 0 <= i < s.drop_first().len() && s.drop_first()[i].0 == k;
                assert(s[i + 1] == s.drop_first()[i]);
            }
        }
        if table_contains(s.drop_first(), s[0].0) {
            assert(dedup_last(s) == rest);
            if table_contains(s, k) && !table_contains(s.drop_first(), k) {
                let i = choose|i: int| 0 <= i < s.len() && s[i].0 == k;
                if i > 0 {
                    assert(s.drop_first()[i - 1] == s[i]);
                    assert(false);
                }
                assert(k == s[0].0);
                assert(false);
            }
        } else {
            let out = seq![s[0]] + rest;
            assert(dedup_last(s) == out);
            assert(out[0] == s[0]);
            if table_contains(s, k) {
                let i = choose|i: int| 0 <= i < s.len() && s[i].0 == k;
                if i == 0 {
                    assert(out[0].0 == k);
                } else {
                    assert(s.drop_first()[i - 1] == s[i]);
                    assert(table_contains(rest, k));
                    let j = choose|j: int| 0 <= j < rest.len() && rest[j].0 == k;
                    assert(out[j + 1] == rest[j]);
                }
            }
            if table_contains(out, k) {
                let i = choose|i: int| 0 <= i < out.len() && out[i].0 == k;
                if i == 0 {
                    assert(s[0].0 == k);
                } else {
                    assert(out[i] == rest[i - 1]);
                    assert(table_contains(rest, k));
                }
            }
        }
    }
}

pub proof fn lemma_dedup_unique<V>(s: Seq<(u32, V)>)
    ensures
        unique_keys(dedup_last(s)),
    decreases s.len(),
{
    if s.len() > 0 {
        lemma_dedup_unique(s.drop_first());
        let rest = dedup_last(s.drop_first());
        if !table_contains(s.drop_first(), s[0].0) {
            let out = seq![s[0]] + rest;
            lemma_dedup_contains(s.drop_first(), s[0].0);
            assert(forall|j: int| 0 <= j < rest.len() ==> (#[trigger] rest[j]).0 != s[0].0) by {
                if exists|j: int| 0 <= j < rest.len() && (#[trigger] rest[j]).0 == s[0].0 {
                    assert(table_contains(rest, s[0].0));
                }
            }
            assert forall|i: int, j: int| 0 <= i < j < out.len() implies (#[trigger] out[i]).0 != (#[trigger] out[j]).0 by {
                if i == 0 {
                    assert(out[j] == rest[j - 1]);
                } else {
                    assert(out[i] == rest[i - 1]);
                    assert(out[j] == rest[j - 1]);
                }
            }
        }
    }
}

proof fn lemma_map_contains<V, W>(s: Seq<(u32, V)>, f: spec_fn(V) -> W, k: u32)
    ensures
        table_contains(s.map_values(|p: (u32, V)| (p.0, f(p.1))), k) == table_contains(s, k),
{
    let m = s.map_values(|p: (u32, V)| (p.0, f(p.1)));
    assert(m.len() == s.len());
    if table_contains(s, k) {
        let i = choose|i: int| 0 <= i < s.len() && s[i].0 == k;
        assert(m[i].0 == k);
    }
    if table_contains(m, k) {
        let i = choose|i: int| 0 <= i < m.len() && m[i].0 == k;
        assert(s[i].0 == k);
    }
}

/// Re-keying values does not change which entries the dedup keeps: dedup
/// commutes with mapping over the values.
pub proof fn lemma_dedup_map<V, W>(s: Seq<(u32, V)>, f: spec_fn(V) -> W)
    ensures
        dedup_last(s).map_values(|p: (u32, V)| (p.0, f(p.1))) == dedup_last(
            s.map_values(|p: (u32, V)| (p.0, f(p.1))),
        ),
    decreases s.len(),
{
    let g = |p: (u32, V)| (p.0, f(p.1));
    let m = s.map_values(g);
    if s.len() == 0 {
        assert(dedup_last(s).map_values(g) =~= dedup_last(m));
    } else {
        lemma_dedup_map(s.drop_first(), f);
        lemma_map_contains(s.drop_first(), f, s[0].0);
        assert(m.drop_first() =~= s.drop_first().map_values(g));
        assert(m[0] == g(s[0]));
        let rest = dedup_last(s.drop_first());
        if table_contains(s.drop_first(), s[0].0) {
            assert(table_contains(m.drop_first(), m[0].0));
            assert(dedup_last(m) == dedup_last(m.drop_first()));
            assert(dedup_last(s).map_values(g) == rest.map_values(g));
        } else {
            assert(!table_contains(m.drop_first(), m[0].0));
            assert(dedup_last(m) == seq![m[0]] + dedup_last(m.drop_first()));
            assert(dedup_last(s) == seq![s[0]] + rest);
            assert((seq![s[0]] + rest).map_values(g) =~= seq![g(s[0])] + rest.map_values(g));
        }
    }
}

/// Merge parsed keys with their entries' values, keeping the last entry of
/// every key. `keys` holds the already-coerced key of each entry.
pub fn dedup_pairs<V>(entries: Vec<(String, V)>, keys: &Vec<u32>) -> (out: Vec<(u32, V)>)
    requires
        keys@.len() == entries@.len(),
    ensures
        out@ == dedup_last(Seq::new(entries@.len(), |i: int| (keys@[i], entries@[i].1))),
{
    let ghost pairs = Seq::new(entries@.len(), |i: int| (keys@[i], entries@[i].1));
    let ghost orig = entries@;
    let mut entries = entries;
    let mut out: Vec<(u32, V)> = Vec::new();
    proof {
        assert(pairs.skip(orig.len() as int) =~= Seq::<(u32, V)>::empty());
    }
    while entries.len() > 0
        invariant
            entries@.len() <= orig.len(),
            entries@ == orig.take(entries@.len() as int),
            keys@.len() == orig.len(),
            pairs == Seq::new(orig.len() as nat, |i: int| (keys@[i], orig[i].1)),
            out@ == dedup_last(pairs.skip(entries@.len() as int)),
        decreases entries@.len(),
    {
        let j = entries.len();
        let pair = entries.pop().unwrap();
        let k = keys[j - 1];
        proof {
            assert(orig.take(j as int)[j - 1] == orig[j - 1]);
            assert(pair == orig[j - 1]);
            assert(entries@ =~= orig.take(j - 1));
            assert(pairs.skip(j - 1)[0] == pairs[j - 1]);
            assert(pairs.skip(j - 1).drop_first() =~= pairs.skip(j as int));
            lemma_dedup_contains(pairs.skip(j as int), k);
            lemma_table_find_contains(out@, k);
        }
        let present = table_has(&out, k);
        if !present {
            out.insert(0, (k, pair.1));
            proof {
                assert(out@ =~= seq![pairs.skip(j - 1)[0]] + dedup_last(pairs.skip(j as int)));
            }
        }
    }
    proof {
        assert(pairs.skip(0) =~= pairs);
    }
    out
}

} // verus!
