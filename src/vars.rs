use indexmap::IndexMap;
use vstd::prelude::*;

verus! {

/// An ordered list of variable entries: name, then value.
pub type Entries = Seq<(Seq<char>, Seq<char>)>;

#[verifier::external_type_specification]
#[verifier::external_body]
#[verifier::reject_recursive_types(K)]
#[verifier::reject_recursive_types(V)]
#[verifier::reject_recursive_types(S)]
pub struct ExIndexMap<K, V, S>(IndexMap<K, V, S>);

/// The entries of a string map, in the map's order.
pub uninterp spec fn map_entries(m: IndexMap<String, String>) -> Seq<(Seq<char>, Seq<char>)>;

/// Position of the entry named `k`, or `-1`.
pub open spec fn index_of(e: Entries, k: Seq<char>) -> int
    decreases e.len(),
{
    if e.len() == 0 {
        -1
    } else if e.last().0 == k {
        e.len() - 1
    } else {
        index_of(e.drop_last(), k)
    }
}

/// The value of the entry named `k`, if there is one.
pub open spec fn lookup(e: Entries, k: Seq<char>) -> Option<Seq<char>> {
    let i = index_of(e, k);
    if i >= 0 {
        Some(e[i].1)
    } else {
        None
    }
}

/// No two entries share a name.
pub open spec fn unique_names(e: Entries) -> bool {
    forall|i: int, j: int| 0 <= i < j < e.len() ==> e[i].0 != e[j].0
}

/// The entries after setting `k` to `v`: an existing entry keeps its place
/// and takes the new value; a new name goes last.
pub open spec fn put(e: Entries, k: Seq<char>, v: Seq<char>) -> Entries {
    let i = index_of(e, k);
    if i >= 0 {
        e.update(i, (k, v))
    } else {
        e.push((k, v))
    }
}

pub proof fn lemma_index_of(e: Entries, k: Seq<char>)
    ensures
        -1 <= index_of(e, k) < e.len(),
        index_of(e, k) >= 0 ==> e[index_of(e, k)].0 == k,
        index_of(e, k) == -1 ==> forall|j: int| 0 <= j < e.len() ==> e[j].0 != k,
    decreases e.len(),
{
    if e.len() > 0 {
        let d = e.drop_last();
        lemma_index_of(d, k);
        assert forall|j: int| 0 <= j < d.len() implies d[j] == e[j] by {}
    }
}

/// In a list with distinct names, the entry found is the only one with that name.
pub proof fn lemma_index_of_unique(e: Entries, k: Seq<char>, j: int)
    requires
        unique_names(e),
        0 <= j < e.len(),
        e[j].0 == k,
    ensures
        index_of(e, k) == j,
{
    lemma_index_of(e, k);
}

pub proof fn lemma_put(e: Entries, k: Seq<char>, v: Seq<char>)
    requires
        unique_names(e),
    ensures
        unique_names(put(e, k, v)),
        lookup(put(e, k, v), k) == Some(v),
        forall|q: Seq<char>| q != k ==> lookup(put(e, k, v), q) == lookup(e, q),
{
    lemma_index_of(e, k);
    let r = put(e, k, v);
    let i = index_of(e, k);
    if i >= 0 {
        assert(r[i].0 == k);
        lemma_index_of_unique(r, k, i);
        assert forall|q: Seq<char>| q != k implies lookup(r, q) == lookup(e, q) by {
            lemma_index_of(e, q);
            lemma_index_of(r, q);
            let a = index_of(e, q);
            let b = index_of(r, q);
            if a >= 0 {
                lemma_index_of_unique(r, q, a);
            } else if b >= 0 {
                assert(r[b].0 == e[b].0);
            }
        }
    } else {
        let n = e.len() as int;
        assert(r[n].0 == k);
        lemma_index_of_unique(r, k, n);
        assert forall|q: Seq<char>| q != k implies lookup(r, q) == lookup(e, q) by {
            lemma_index_of(e, q);
            lemma_index_of(r, q);
            let a = index_of(e, q);
            let b = index_of(r, q);
            if a >= 0 {
                lemma_index_of_unique(r, q, a);
            } else if b >= 0 {
                assert(b < n);
                assert(r[b].0 == e[b].0);
            }
        }
    }
}

/// The entries after setting each of `more`, in order, under its own name.
pub open spec fn put_seq(e: Entries, more: Entries) -> Entries
    decreases more.len(),
{
    if more.len() == 0 {
        e
    } else {
        put(put_seq(e, more.drop_last()), more.last().0, more.last().1)
    }
}

/// Setting entries is right-biased: a name holds the value that the last entry
/// of `more` with that name gives, and keeps its old value where none does.
pub proof fn lemma_put_seq_right_biased(e: Entries, more: Entries, k: Seq<char>)
    requires
        unique_names(e),
    ensures
        unique_names(put_seq(e, more)),
        lookup(put_seq(e, more), k) == match lookup(more, k) {
            Some(v) => Some(v),
            None => lookup(e, k),
        },
    decreases more.len(),
{
    if more.len() > 0 {
        let d = more.drop_last();
        lemma_put_seq_right_biased(e, d, k);
        lemma_put(put_seq(e, d), more.last().0, more.last().1);
        if more.last().0 != k {
            lemma_index_of(d, k);
            if index_of(d, k) >= 0 {
                assert(d[index_of(d, k)] == more[index_of(d, k)]);
            }
        }
    }
}

/// Relies on `IndexMap::new`: a new map is empty.
#[verifier::external_body]
pub fn map_new() -> (r: IndexMap<String, String>)
    ensures
        map_entries(r) == Seq::<(Seq<char>, Seq<char>)>::empty(),
{
    IndexMap::new()
}

/// Relies on `IndexMap::len`: the number of entries.
#[verifier::external_body]
pub fn map_len(m: &IndexMap<String, String>) -> (r: usize)
    ensures
        r == map_entries(*m).len(),
{
    m.len()
}

/// Relies on `IndexMap::get_index`: the entry at a position, in the map's order.
#[verifier::external_body]
pub fn map_entry(m: &IndexMap<String, String>, i: usize) -> (r: Option<(String, String)>)
    ensures
        i < map_entries(*m).len() <==> r.is_some(),
        r matches Some(p) ==> (p.0@, p.1@) == map_entries(*m)[i as int],
{
    m.get_index(i).map(|(k, v)| (k.clone(), v.clone()))
}

/// Relies on `IndexMap::get`: the value stored under a name.
#[verifier::external_body]
pub fn map_get(m: &IndexMap<String, String>, k: &str) -> (r: Option<String>)
    ensures
        r.is_some() == lookup(map_entries(*m), k@).is_some(),
        r matches Some(v) ==> lookup(map_entries(*m), k@) == Some(v@),
{
    m.get(k).cloned()
}

/// Relies on `IndexMap::insert`: an existing name keeps its place and takes the
/// new value, a new name is added last.
#[verifier::external_body]
pub fn map_insert(m: &mut IndexMap<String, String>, k: String, v: String)
    ensures
        map_entries(*final(m)) == put(map_entries(*old(m)), k@, v@),
{
    m.insert(k, v);
}

} // verus!
