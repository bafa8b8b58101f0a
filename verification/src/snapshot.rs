//! The persisted index snapshot: a document with one entry list per address
//! family plus the metadata pairs and the statistics block.
//!
//! Building a document from a tree and rebuilding a tree from a document
//! are both verified; the round trip is proved to preserve the answer of
//! every lookup. Malformed CIDR entries are rejected with a
//! deserialization error, never dropped silently.

use vstd::prelude::*;
use crate::net::{IpAddress, IpNet, net_is_v4, normalized, strict_net_of_text};
use crate::net::{net_to_string, parse_net_strict};
use crate::tree::RadixTree;
use crate::types::{IpCategory, IpRangeError, LookupStats};

verus! {

/// A serializable image of a `RadixTree`: every stored network as CIDR
/// text with its category, per family, plus metadata and statistics.
pub struct IndexDocument {
    pub v4_entries: Vec<(String, IpCategory)>,
    pub v6_entries: Vec<(String, IpCategory)>,
    pub metadata: Vec<(String, String)>,
    pub stats: LookupStats,
}

/// The network an entry's text stands for, under the strict parser.
pub open spec fn entry_key(e: (String, IpCategory)) -> Option<IpNet> {
    strict_net_of_text(e.0@)
}

/// Whether an entry list is a faithful image of a contents map: every
/// entry parses to a stored network of the list's family with the entry's
/// category, every stored network appears, and no network appears twice.
pub open spec fn rep_list(
    es: Seq<(String, IpCategory)>,
    m: Map<IpNet, IpCategory>,
    v4: bool,
) -> bool {
    &&& forall|i: int|
        0 <= i < es.len() ==> ((#[trigger] entry_key(es[i])) matches Some(k) && m.contains_key(k)
            && m[k] == es[i].1 && net_is_v4(k) == v4)
    &&& forall|k: IpNet|
        m.contains_key(k) ==> exists|i: int| 0 <= i < es.len() && #[trigger] entry_key(es[i]) == Some(k)
    &&& forall|i: int, j: int| 0 <= i < j < es.len() ==> entry_key(es[i]) != entry_key(es[j])
}

/// One rebuild step: where the entry's text parses, store the network in
/// its family's map; otherwise leave both maps alone.
pub open spec fn entry_step(
    maps: (Map<IpNet, IpCategory>, Map<IpNet, IpCategory>),
    e: (String, IpCategory),
) -> (Map<IpNet, IpCategory>, Map<IpNet, IpCategory>) {
    match entry_key(e) {
        Some(n) => if net_is_v4(n) {
            (maps.0.insert(n, e.1), maps.1)
        } else {
            (maps.0, maps.1.insert(n, e.1))
        },
        None => maps,
    }
}

/// The pair of family maps after rebuilding from an entry list, in order.
pub open spec fn entries_loaded(
    maps: (Map<IpNet, IpCategory>, Map<IpNet, IpCategory>),
    es: Seq<(String, IpCategory)>,
) -> (Map<IpNet, IpCategory>, Map<IpNet, IpCategory>)
    decreases es.len(),
{
    if es.len() == 0 {
        maps
    } else {
        entry_step(entries_loaded(maps, es.drop_last()), es.last())
    }
}

/// An entry list of one family leaves the other family's map alone.
pub proof fn lemma_entries_other_family(
    maps: (Map<IpNet, IpCategory>, Map<IpNet, IpCategory>),
    es: Seq<(String, IpCategory)>,
    v4: bool,
)
    requires
        forall|i: int|
            0 <= i < es.len() ==> ((#[trigger] entry_key(es[i])) matches Some(k) && net_is_v4(k)
                == v4),
    ensures
        v4 ==> entries_loaded(maps, es).1 == maps.1,
        !v4 ==> entries_loaded(maps, es).0 == maps.0,
    decreases es.len(),
{
    if es.len() > 0 {
        assert(entry_key(es[es.len() - 1]) == entry_key(es.last()));
        lemma_entries_other_family(maps, es.drop_last(), v4);
    }
}

/// Rebuilding from a faithful image of a map yields exactly that map back
/// in the family's component.
pub proof fn lemma_entries_rebuild(
    start: (Map<IpNet, IpCategory>, Map<IpNet, IpCategory>),
    es: Seq<(String, IpCategory)>,
    m: Map<IpNet, IpCategory>,
    v4: bool,
)
    requires
        rep_list(es, m, v4),
        v4 ==> (start.0 == Map::<IpNet, IpCategory>::empty()),
        !v4 ==> (start.1 == Map::<IpNet, IpCategory>::empty()),
    ensures
        v4 ==> entries_loaded(start, es).0 == m,
        !v4 ==> entries_loaded(start, es).1 == m,
    decreases es.len(),
{
    if es.len() == 0 {
        assert(forall|k: IpNet| !m.contains_key(k));
        if v4 {
            assert(entries_loaded(start, es).0 =~= m);
        } else {
            assert(entries_loaded(start, es).1 =~= m);
        }
    } else {
        let last = es.last();
        let k = entry_key(last)->Some_0;
        assert(entry_key(es[es.len() - 1]) == entry_key(last));
        let prev = es.drop_last();
        let m0 = m.remove(k);
        assert(rep_list(prev, m0, v4)) by {
            assert forall|i: int| 0 <= i < prev.len() implies ((#[trigger] entry_key(
                prev[i],
            )) matches Some(kk) && m0.contains_key(kk) && m0[kk] == prev[i].1 && net_is_v4(kk)
                == v4) by {
                assert(prev[i] == es[i]);
                assert(entry_key(es[i]) != entry_key(es[es.len() - 1]));
            }
            assert forall|kk: IpNet| m0.contains_key(kk) implies exists|i: int|
                0 <= i < prev.len() && #[trigger] entry_key(prev[i]) == Some(kk) by {
                let i = choose|i: int| 0 <= i < es.len() && #[trigger] entry_key(es[i]) == Some(kk);
                assert(i != es.len() - 1);
                assert(entry_key(prev[i]) == Some(kk));
            }
            assert(forall|i: int, j: int|
                0 <= i < j < prev.len() ==> entry_key(prev[i]) != entry_key(prev[j]));
        }
        lemma_entries_rebuild(start, prev, m0, v4);
        if v4 {
            assert(entries_loaded(start, es).0 =~= m);
        } else {
            assert(entries_loaded(start, es).1 =~= m);
        }
    }
}

/// Turn a tree into its snapshot document: each family's networks rendered
/// as CIDR text, with the metadata pairs and statistics copied over.
pub fn to_document(t: &RadixTree) -> (doc: IndexDocument)
    requires
        t.wf(),
    ensures
        rep_list(doc.v4_entries@, t.v4_map(), true),
        rep_list(doc.v6_entries@, t.v6_map(), false),
        doc.metadata@.len() == t.metadata_view().len(),
        forall|i: int|
            0 <= i < doc.metadata@.len() ==> (#[trigger] doc.metadata@[i]).0@
                == t.metadata_view()[i].0@ && doc.metadata@[i].1@ == t.metadata_view()[i].1@,
        doc.stats == t.stats_view(),
{
    let v4_nets = t.v4_entries();
    let mut v4_entries: Vec<(String, IpCategory)> = Vec::new();
    for i in 0..v4_nets.len()
        invariant
            t.wf(),
            forall|j: int|
                0 <= j < v4_nets@.len() ==> #[trigger] t.v4_map().contains_key(v4_nets@[j].0)
                    && t.v4_map()[v4_nets@[j].0] == v4_nets@[j].1,
            forall|k: IpNet|
                t.v4_map().contains_key(k) ==> exists|j: int|
                    0 <= j < v4_nets@.len() && #[trigger] v4_nets@[j].0 == k,
            forall|j: int, l: int| 0 <= j < l < v4_nets@.len() ==> v4_nets@[j].0 != v4_nets@[l].0,
            v4_entries@.len() == i,
            forall|j: int|
                0 <= j < i ==> #[trigger] entry_key(v4_entries@[j]) == Some(v4_nets@[j].0)
                    && v4_entries@[j].1 == v4_nets@[j].1,
    {
        let net = v4_nets[i].0;
        assert(normalized(net));
        let text = net_to_string(&net);
        v4_entries.push((text, v4_nets[i].1));
    }
    let v6_nets = t.v6_entries();
    let mut v6_entries: Vec<(String, IpCategory)> = Vec::new();
    for i in 0..v6_nets.len()
        invariant
            t.wf(),
            forall|j: int|
                0 <= j < v6_nets@.len() ==> #[trigger] t.v6_map().contains_key(v6_nets@[j].0)
                    && t.v6_map()[v6_nets@[j].0] == v6_nets@[j].1,
            forall|k: IpNet|
                t.v6_map().contains_key(k) ==> exists|j: int|
                    0 <= j < v6_nets@.len() && #[trigger] v6_nets@[j].0 == k,
            forall|j: int, l: int| 0 <= j < l < v6_nets@.len() ==> v6_nets@[j].0 != v6_nets@[l].0,
            v6_entries@.len() == i,
            forall|j: int|
                0 <= j < i ==> #[trigger] entry_key(v6_entries@[j]) == Some(v6_nets@[j].0)
                    && v6_entries@[j].1 == v6_nets@[j].1,
    {
        let net = v6_nets[i].0;
        assert(normalized(net));
        let text = net_to_string(&net);
        v6_entries.push((text, v6_nets[i].1));
    }
    let mut metadata: Vec<(String, String)> = Vec::new();
    let stored = t.metadata();
    let n = stored.len();
    for i in 0..n
        invariant
            n == stored@.len(),
            stored@ == t.metadata_view(),
            metadata@.len() == i,
            forall|j: int|
                0 <= j < i ==> (#[trigger] metadata@[j]).0@ == t.metadata_view()[j].0@
                    && metadata@[j].1@ == t.metadata_view()[j].1@,
    {
        let pair = (stored[i].0.clone(), stored[i].1.clone());
        metadata.push(pair);
    }
    proof {
        assert forall|k: IpNet| t.v4_map().contains_key(k) implies exists|i: int|
            0 <= i < v4_entries@.len() && #[trigger] entry_key(v4_entries@[i]) == Some(k) by {
            let j = choose|j: int| 0 <= j < v4_nets@.len() && #[trigger] v4_nets@[j].0 == k;
            assert(entry_key(v4_entries@[j]) == Some(k));
        }
        assert forall|k: IpNet| t.v6_map().contains_key(k) implies exists|i: int|
            0 <= i < v6_entries@.len() && #[trigger] entry_key(v6_entries@[i]) == Some(k) by {
            let j = choose|j: int| 0 <= j < v6_nets@.len() && #[trigger] v6_nets@[j].0 == k;
            assert(entry_key(v6_entries@[j]) == Some(k));
        }
        assert(forall|i: int, j: int|
            0 <= i < j < v4_entries@.len() ==> entry_key(v4_entries@[i]) != entry_key(
                v4_entries@[j],
            ));
        assert(forall|i: int, j: int|
            0 <= i < j < v6_entries@.len() ==> entry_key(v6_entries@[i]) != entry_key(
                v6_entries@[j],
            ));
        assert forall|i: int| 0 <= i < v4_entries@.len() implies ((#[trigger] entry_key(
            v4_entries@[i],
        )) matches Some(k) && t.v4_map().contains_key(k) && t.v4_map()[k] == v4_entries@[i].1
            && net_is_v4(k) == true) by {
            assert(t.v4_map().contains_key(v4_nets@[i].0));
        }
        assert forall|i: int| 0 <= i < v6_entries@.len() implies ((#[trigger] entry_key(
            v6_entries@[i],
        )) matches Some(k) && t.v6_map().contains_key(k) && t.v6_map()[k] == v6_entries@[i].1
            && net_is_v4(k) == false) by {
            assert(t.v6_map().contains_key(v6_nets@[i].0));
        }
    }
    let s = t.stats();
    let stats = LookupStats {
        total_lookups: s.total_lookups,
        hits: s.hits,
        misses: s.misses,
        last_updated: s.last_updated,
    };
    IndexDocument { v4_entries, v6_entries, metadata, stats }
}

/// Rebuild a tree from a snapshot document. Every entry must parse as
/// strict CIDR text; the first malformed entry is rejected with a
/// deserialization error and nothing is silently dropped.
pub fn from_document(doc: IndexDocument) -> (r: Result<RadixTree, IpRangeError>)
    ensures
        (r is Ok) == ((forall|i: int|
            0 <= i < doc.v4_entries@.len() ==> (#[trigger] entry_key(doc.v4_entries@[i])) is Some)
            && (forall|i: int|
            0 <= i < doc.v6_entries@.len() ==> (#[trigger] entry_key(doc.v6_entries@[i])) is Some)),
        r matches Ok(t) ==> t.wf() && ({
            let m = entries_loaded(
                entries_loaded(
                    (Map::<IpNet, IpCategory>::empty(), Map::<IpNet, IpCategory>::empty()),
                    doc.v4_entries@,
                ),
                doc.v6_entries@,
            );
            t.v4_map() == m.0 && t.v6_map() == m.1
        }) && t.metadata_view() == doc.metadata@ && t.stats_view() == doc.stats,
{
    let mut tree = RadixTree::new();
    let ghost start = (Map::<IpNet, IpCategory>::empty(), Map::<IpNet, IpCategory>::empty());
    let n4 = doc.v4_entries.len();
    for i in 0..n4
        invariant
            n4 == doc.v4_entries@.len(),
            tree.wf(),
            (tree.v4_map(), tree.v6_map()) == entries_loaded(start, doc.v4_entries@.take(i as int)),
            forall|j: int|
                0 <= j < i ==> (#[trigger] entry_key(doc.v4_entries@[j])) is Some,
    {
        proof {
            assert(doc.v4_entries@.take(i + 1).drop_last() =~= doc.v4_entries@.take(i as int));
            assert(doc.v4_entries@.take(i + 1).last() == doc.v4_entries@[i as int]);
        }
        match parse_net_strict(doc.v4_entries[i].0.as_str()) {
            Some(network) => {
                let _previous = tree.insert(network, doc.v4_entries[i].1);
            },
            None => {
                proof {
                    assert(!(forall|j: int|
                        0 <= j < doc.v4_entries@.len() ==> (#[trigger] entry_key(
                            doc.v4_entries@[j],
                        )) is Some)) by {
                        assert(entry_key(doc.v4_entries@[i as int]) is None);
                    }
                }
                return Err(
                    IpRangeError::SerializationError(
                        String::from_str("invalid network in snapshot: ").concat(
                            doc.v4_entries[i].0.as_str(),
                        ),
                    ),
                );
            },
        }
    }
    proof {
        assert(doc.v4_entries@.take(n4 as int) =~= doc.v4_entries@);
    }
    let ghost mid = entries_loaded(start, doc.v4_entries@);
    let n6 = doc.v6_entries.len();
    for i in 0..n6
        invariant
            n6 == doc.v6_entries@.len(),
            tree.wf(),
            (tree.v4_map(), tree.v6_map()) == entries_loaded(mid, doc.v6_entries@.take(i as int)),
            forall|j: int|
                0 <= j < doc.v4_entries@.len() ==> (#[trigger] entry_key(doc.v4_entries@[j])) is Some,
            forall|j: int|
                0 <= j < i ==> (#[trigger] entry_key(doc.v6_entries@[j])) is Some,
    {
        proof {
            assert(doc.v6_entries@.take(i + 1).drop_last() =~= doc.v6_entries@.take(i as int));
            assert(doc.v6_entries@.take(i + 1).last() == doc.v6_entries@[i as int]);
        }
        match parse_net_strict(doc.v6_entries[i].0.as_str()) {
            Some(network) => {
                let _previous = tree.insert(network, doc.v6_entries[i].1);
            },
            None => {
                proof {
                    assert(!(forall|j: int|
                        0 <= j < doc.v6_entries@.len() ==> (#[trigger] entry_key(
                            doc.v6_entries@[j],
                        )) is Some)) by {
                        assert(entry_key(doc.v6_entries@[i as int]) is None);
                    }
                }
                return Err(
                    IpRangeError::SerializationError(
                        String::from_str("invalid network in snapshot: ").concat(
                            doc.v6_entries[i].0.as_str(),
                        ),
                    ),
                );
            },
        }
    }
    proof {
        assert(doc.v6_entries@.take(n6 as int) =~= doc.v6_entries@);
    }
    tree.set_metadata(doc.metadata);
    tree.set_stats(doc.stats);
    Ok(tree)
}

/// The round trip law: a tree rebuilt from a faithful snapshot document
/// answers every lookup, hit or miss, exactly as the original tree does,
/// and carries the same statistics and metadata.
pub proof fn lemma_snapshot_roundtrip(t1: RadixTree, doc: IndexDocument, t2: RadixTree)
    requires
        rep_list(doc.v4_entries@, t1.v4_map(), true),
        rep_list(doc.v6_entries@, t1.v6_map(), false),
        doc.metadata@.len() == t1.metadata_view().len(),
        forall|i: int|
            0 <= i < doc.metadata@.len() ==> (#[trigger] doc.metadata@[i]).0@
                == t1.metadata_view()[i].0@ && doc.metadata@[i].1@ == t1.metadata_view()[i].1@,
        doc.stats == t1.stats_view(),
        ({
            let m = entries_loaded(
                entries_loaded(
                    (Map::<IpNet, IpCategory>::empty(), Map::<IpNet, IpCategory>::empty()),
                    doc.v4_entries@,
                ),
                doc.v6_entries@,
            );
            t2.v4_map() == m.0 && t2.v6_map() == m.1
        }),
        t2.metadata_view() == doc.metadata@,
        t2.stats_view() == doc.stats,
    ensures
        forall|ip: IpAddress| t2.lookup_model(ip) == t1.lookup_model(ip),
        t2.metadata_view().len() == t1.metadata_view().len(),
        forall|i: int|
            0 <= i < t2.metadata_view().len() ==> (#[trigger] t2.metadata_view()[i]).0@
                == t1.metadata_view()[i].0@ && t2.metadata_view()[i].1@ == t1.metadata_view()[i].1@,
        t2.stats_view() == t1.stats_view(),
{
    let start = (Map::<IpNet, IpCategory>::empty(), Map::<IpNet, IpCategory>::empty());
    let mid = entries_loaded(start, doc.v4_entries@);
    lemma_entries_rebuild(start, doc.v4_entries@, t1.v4_map(), true);
    lemma_entries_other_family(start, doc.v4_entries@, true);
    lemma_entries_rebuild(mid, doc.v6_entries@, t1.v6_map(), false);
    lemma_entries_other_family(mid, doc.v6_entries@, false);
    assert(t2.v4_map() == t1.v4_map());
    assert(t2.v6_map() == t1.v6_map());
}

} // verus!
