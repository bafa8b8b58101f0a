//! The dual-stack longest-prefix-match index and its concurrency wrapper.
//!
//! A `RadixTree` keeps one prefix table per address family, plus metadata
//! and lookup statistics. Its whole behaviour is stated over the two
//! contents maps of the tables. A `SharedRadixTree` puts the tree behind a
//! verified reader-writer lock, so unbounded concurrent readers observe
//! complete snapshots while refresh replaces the whole tree at once.

use vstd::prelude::*;
use vstd::rwlock::{RwLock, RwLockPredicate};
use crate::net::{IpAddress, IpNet, ip_is_v4, net_contains, net_is_v4, net_prefix, normalized, strict_net_of_text};
use crate::net::parse_net_strict;
use crate::table::{
    table_map,
    map_wf,
    is_match,
    is_best_match,
    lpm,
    lemma_lpm_of_best,
    tbl_new,
    tbl_insert,
    tbl_remove,
    tbl_longest_match,
    tbl_len,
    tbl_is_empty,
};
use crate::time::now_secs;
use crate::types::{IpCategory, IpRange, IpRangeError, LookupStats};

verus! {

/// A radix tree for efficient IP address lookups, with separate tables for
/// IPv4 and IPv6 networks.
pub struct RadixTree {
    v4_table: ip_network_table::IpNetworkTable<IpCategory>,
    v6_table: ip_network_table::IpNetworkTable<IpCategory>,
    metadata: Vec<(String, String)>,
    stats: LookupStats,
}

/// One bulk-load step: where the record's network parses strictly, store it
/// in its family's map; otherwise leave both maps alone.
pub open spec fn step_load(
    maps: (Map<IpNet, IpCategory>, Map<IpNet, IpCategory>),
    r: IpRange,
) -> (Map<IpNet, IpCategory>, Map<IpNet, IpCategory>) {
    match strict_net_of_text(r.network@) {
        Some(n) => if net_is_v4(n) {
            (maps.0.insert(n, r.category), maps.1)
        } else {
            (maps.0, maps.1.insert(n, r.category))
        },
        None => maps,
    }
}

/// The pair of family maps after bulk-loading a record sequence, in order.
pub open spec fn loaded_maps(
    maps: (Map<IpNet, IpCategory>, Map<IpNet, IpCategory>),
    rs: Seq<IpRange>,
) -> (Map<IpNet, IpCategory>, Map<IpNet, IpCategory>)
    decreases rs.len(),
{
    if rs.len() == 0 {
        maps
    } else {
        step_load(loaded_maps(maps, rs.drop_last()), rs.last())
    }
}

/// A finite set every member of which satisfies `p` is unchanged by
/// filtering on `p`, and emptied by filtering on its negation.
proof fn lemma_filter_homogeneous<A>(s: Set<A>, p: spec_fn(A) -> bool)
    requires
        s.finite(),
        forall|x: A| s.contains(x) ==> #[trigger] p(x),
    ensures
        s.filter(p) == s,
        (s.filter(|x: A| !p(x)) == Set::<A>::empty()),
{
    assert(s.filter(p) =~= s);
    assert(s.filter(|x: A| !p(x)) =~= Set::<A>::empty());
}

impl RadixTree {
    /// The contents map of the IPv4 table.
    pub closed spec fn v4_map(self) -> Map<IpNet, IpCategory> {
        table_map(self.v4_table)
    }

    /// The contents map of the IPv6 table.
    pub closed spec fn v6_map(self) -> Map<IpNet, IpCategory> {
        table_map(self.v6_table)
    }

    /// The tree's metadata pairs.
    pub closed spec fn metadata_view(self) -> Seq<(String, String)> {
        self.metadata@
    }

    /// The tree's statistics.
    pub closed spec fn stats_view(self) -> LookupStats {
        self.stats
    }

    /// Well-formedness: each family table holds finitely many networks of
    /// its own family only, every one normalized.
    pub open spec fn wf(self) -> bool {
        &&& map_wf(self.v4_map())
        &&& map_wf(self.v6_map())
        &&& self.v4_map().dom().finite()
        &&& self.v6_map().dom().finite()
        &&& forall|k: IpNet| self.v4_map().contains_key(k) ==> #[trigger] net_is_v4(k)
        &&& forall|k: IpNet| self.v6_map().contains_key(k) ==> !#[trigger] net_is_v4(k)
    }

    /// What a lookup of `ip` answers: the longest-prefix match within the
    /// address's own family table.
    pub open spec fn lookup_model(self, ip: IpAddress) -> Option<IpCategory> {
        if ip_is_v4(ip) {
            lpm(self.v4_map(), ip)
        } else {
            lpm(self.v6_map(), ip)
        }
    }

    /// Create a new, empty RadixTree.
    pub fn new() -> (r: Self)
        ensures
            r.wf(),
            (r.v4_map() == Map::<IpNet, IpCategory>::empty()),
            (r.v6_map() == Map::<IpNet, IpCategory>::empty()),
            r.metadata_view().len() == 0,
            r.stats_view() == (LookupStats {
                total_lookups: 0u64,
                hits: 0u64,
                misses: 0u64,
                last_updated: None::<u64>,
            }),
    {
        RadixTree {
            v4_table: tbl_new(),
            v6_table: tbl_new(),
            metadata: Vec::new(),
            stats: LookupStats { total_lookups: 0, hits: 0, misses: 0, last_updated: None },
        }
    }

    /// Insert an IP network with its category into the tree.
    ///
    /// Returns the previous category if the exact network was already in
    /// the tree, or None if it was a new entry. Only the network's own
    /// family table changes.
    pub fn insert(&mut self, network: IpNet, category: IpCategory) -> (r: Option<IpCategory>)
        requires
            old(self).wf(),
            normalized(network),
        ensures
            final(self).wf(),
            net_is_v4(network) ==> final(self).v4_map() == old(self).v4_map().insert(
                network,
                category,
            ) && final(self).v6_map() == old(self).v6_map(),
            !net_is_v4(network) ==> final(self).v6_map() == old(self).v6_map().insert(
                network,
                category,
            ) && final(self).v4_map() == old(self).v4_map(),
            r == (if net_is_v4(network) {
                if old(self).v4_map().contains_key(network) {
                    Some(old(self).v4_map()[network])
                } else {
                    None::<IpCategory>
                }
            } else {
                if old(self).v6_map().contains_key(network) {
                    Some(old(self).v6_map()[network])
                } else {
                    None::<IpCategory>
                }
            }),
            final(self).metadata_view() == old(self).metadata_view(),
            final(self).stats_view() == old(self).stats_view(),
    {
        match network {
            IpNet::V4 { .. } => tbl_insert(&mut self.v4_table, network, category),
            IpNet::V6 { .. } => tbl_insert(&mut self.v6_table, network, category),
        }
    }

    /// Remove an IP network from the tree, returning the category the exact
    /// network held, if any.
    pub fn remove(&mut self, network: IpNet) -> (r: Option<IpCategory>)
        requires
            old(self).wf(),
            normalized(network),
        ensures
            final(self).wf(),
            net_is_v4(network) ==> final(self).v4_map() == old(self).v4_map().remove(network)
                && final(self).v6_map() == old(self).v6_map(),
            !net_is_v4(network) ==> final(self).v6_map() == old(self).v6_map().remove(network)
                && final(self).v4_map() == old(self).v4_map(),
            r == (if net_is_v4(network) {
                if old(self).v4_map().contains_key(network) {
                    Some(old(self).v4_map()[network])
                } else {
                    None::<IpCategory>
                }
            } else {
                if old(self).v6_map().contains_key(network) {
                    Some(old(self).v6_map()[network])
                } else {
                    None::<IpCategory>
                }
            }),
            final(self).metadata_view() == old(self).metadata_view(),
            final(self).stats_view() == old(self).stats_view(),
    {
        match network {
            IpNet::V4 { .. } => tbl_remove(&mut self.v4_table, network),
            IpNet::V6 { .. } => tbl_remove(&mut self.v6_table, network),
        }
    }

    /// Check if an IP address is covered and return the most specific
    /// stored category if so. Statistics are untouched here; the shared
    /// wrapper accounts for lookups.
    pub fn lookup(&self, ip: IpAddress) -> (r: Option<IpCategory>)
        requires
            self.wf(),
        ensures
            r == self.lookup_model(ip),
    {
        match ip {
            IpAddress::V4(_) => {
                let found = tbl_longest_match(&self.v4_table, ip);
                proof {
                    let m = self.v4_map();
                    match found {
                        Some((n, c)) => {
                            lemma_lpm_of_best(m, ip, n);
                        },
                        None => {
                            assert(forall|k: IpNet| !is_best_match(m, ip, k));
                        },
                    }
                }
                match found {
                    Some(p) => Some(p.1),
                    None => None,
                }
            },
            IpAddress::V6(_) => {
                let found = tbl_longest_match(&self.v6_table, ip);
                proof {
                    let m = self.v6_map();
                    match found {
                        Some((n, c)) => {
                            lemma_lpm_of_best(m, ip, n);
                        },
                        None => {
                            assert(forall|k: IpNet| !is_best_match(m, ip, k));
                        },
                    }
                }
                match found {
                    Some(p) => Some(p.1),
                    None => None,
                }
            },
        }
    }

    /// The number of networks in the tree as (v4_count, v6_count).
    pub fn len(&self) -> (r: (usize, usize))
        requires
            self.wf(),
        ensures
            r.0 == self.v4_map().dom().len(),
            r.1 == self.v6_map().dom().len(),
    {
        proof {
            lemma_filter_homogeneous(self.v4_map().dom(), |k: IpNet| net_is_v4(k));
            lemma_filter_homogeneous(self.v6_map().dom(), |k: IpNet| !net_is_v4(k));
            assert(self.v6_map().dom().filter(|k: IpNet| net_is_v4(k)) =~= Set::<IpNet>::empty());
            assert(self.v4_map().dom().filter(
                |k: IpNet| !(|k: IpNet| net_is_v4(k))(k),
            ) == self.v4_map().dom().filter(|k: IpNet| !net_is_v4(k)));
        }
        let v4_len = tbl_len(&self.v4_table);
        let v6_len = tbl_len(&self.v6_table);
        (v4_len.0 + v4_len.1, v6_len.0 + v6_len.1)
    }

    /// The total number of networks in the tree, both families together,
    /// capped at the machine word.
    pub fn total_len(&self) -> (r: usize)
        requires
            self.wf(),
        ensures
            r == if self.v4_map().dom().len() + self.v6_map().dom().len() <= usize::MAX {
                self.v4_map().dom().len() + self.v6_map().dom().len()
            } else {
                usize::MAX as nat
            },
    {
        let (v4_count, v6_count) = self.len();
        match v4_count.checked_add(v6_count) {
            Some(total) => total,
            None => usize::MAX,
        }
    }

    /// Whether the tree holds no network at all.
    pub fn is_empty(&self) -> (r: bool)
        ensures
            r == ((self.v4_map().dom() == Set::<IpNet>::empty()) && (self.v6_map().dom()
                == Set::<IpNet>::empty())),
    {
        tbl_is_empty(&self.v4_table) && tbl_is_empty(&self.v6_table)
    }

    /// Bulk-load records into the tree: each record whose network parses
    /// strictly is inserted into its family's table, in order; records that
    /// fail to parse are skipped, never aborting the batch.
    pub fn load_ranges(&mut self, ranges: &Vec<IpRange>) -> (r: Result<(), IpRangeError>)
        requires
            old(self).wf(),
        ensures
            final(self).wf(),
            r is Ok,
            ({
                let m = loaded_maps((old(self).v4_map(), old(self).v6_map()), ranges@);
                final(self).v4_map() == m.0 && final(self).v6_map() == m.1
            }),
            final(self).metadata_view() == old(self).metadata_view(),
            final(self).stats_view().total_lookups == old(self).stats_view().total_lookups,
            final(self).stats_view().hits == old(self).stats_view().hits,
            final(self).stats_view().misses == old(self).stats_view().misses,
            final(self).stats_view().last_updated is Some,
    {
        let ghost m0 = (old(self).v4_map(), old(self).v6_map());
        let n = ranges.len();
        for i in 0..n
            invariant
                n == ranges@.len(),
                self.wf(),
                (self.v4_map(), self.v6_map()) == loaded_maps(m0, ranges@.take(i as int)),
                self.metadata_view() == old(self).metadata_view(),
                self.stats_view() == old(self).stats_view(),
        {
            proof {
                assert(ranges@.take(i + 1).drop_last() =~= ranges@.take(i as int));
                assert(ranges@.take(i + 1).last() == ranges@[i as int]);
            }
            match parse_net_strict(ranges[i].network.as_str()) {
                Some(network) => {
                    let _previous = self.insert(network, ranges[i].category);
                },
                None => (),
            }
        }
        proof {
            assert(ranges@.take(n as int) =~= ranges@);
        }
        self.stats.last_updated = Some(now_secs());
        Ok(())
    }

    /// The current lookup statistics.
    pub fn stats(&self) -> (r: &LookupStats)
        ensures
            *r == self.stats_view(),
    {
        &self.stats
    }

    /// Every IPv4 network in the tree with its category, each exactly once.
    pub fn v4_entries(&self) -> (r: Vec<(IpNet, IpCategory)>)
        ensures
            forall|i: int|
                0 <= i < r@.len() ==> #[trigger] self.v4_map().contains_key(r@[i].0)
                    && self.v4_map()[r@[i].0] == r@[i].1,
            forall|k: IpNet|
                self.v4_map().contains_key(k) ==> exists|i: int|
                    0 <= i < r@.len() && #[trigger] r@[i].0 == k,
            forall|i: int, j: int| 0 <= i < j < r@.len() ==> r@[i].0 != r@[j].0,
    {
        let r = crate::table::tbl_entries(&self.v4_table);
        proof {
            assert forall|i: int|
                0 <= i < r@.len() implies #[trigger] self.v4_map().contains_key(r@[i].0)
                && self.v4_map()[r@[i].0] == r@[i].1 by {
                assert(table_map(self.v4_table).contains_key(r@[i].0));
            }
        }
        r
    }

    /// Every IPv6 network in the tree with its category, each exactly once.
    pub fn v6_entries(&self) -> (r: Vec<(IpNet, IpCategory)>)
        ensures
            forall|i: int|
                0 <= i < r@.len() ==> #[trigger] self.v6_map().contains_key(r@[i].0)
                    && self.v6_map()[r@[i].0] == r@[i].1,
            forall|k: IpNet|
                self.v6_map().contains_key(k) ==> exists|i: int|
                    0 <= i < r@.len() && #[trigger] r@[i].0 == k,
            forall|i: int, j: int| 0 <= i < j < r@.len() ==> r@[i].0 != r@[j].0,
    {
        let r = crate::table::tbl_entries(&self.v6_table);
        proof {
            assert forall|i: int|
                0 <= i < r@.len() implies #[trigger] self.v6_map().contains_key(r@[i].0)
                && self.v6_map()[r@[i].0] == r@[i].1 by {
                assert(table_map(self.v6_table).contains_key(r@[i].0));
            }
        }
        r
    }

    /// The tree's metadata pairs.
    pub fn metadata(&self) -> (r: &Vec<(String, String)>)
        ensures
            r@ == self.metadata_view(),
    {
        &self.metadata
    }

    /// Replace the tree's metadata pairs, leaving the tables and statistics
    /// alone.
    pub fn set_metadata(&mut self, metadata: Vec<(String, String)>)
        ensures
            final(self).metadata_view() == metadata@,
            final(self).v4_map() == old(self).v4_map(),
            final(self).v6_map() == old(self).v6_map(),
            final(self).stats_view() == old(self).stats_view(),
            final(self).wf() == old(self).wf(),
    {
        self.metadata = metadata;
    }

    /// Replace the tree's statistics block, leaving the tables and metadata
    /// alone.
    pub fn set_stats(&mut self, stats: LookupStats)
        ensures
            final(self).stats_view() == stats,
            final(self).v4_map() == old(self).v4_map(),
            final(self).v6_map() == old(self).v6_map(),
            final(self).metadata_view() == old(self).metadata_view(),
            final(self).wf() == old(self).wf(),
    {
        self.stats = stats;
    }
}

/// The family table an address is looked up in.
pub open spec fn family_map(t: RadixTree, ip: IpAddress) -> Map<IpNet, IpCategory> {
    if ip_is_v4(ip) {
        t.v4_map()
    } else {
        t.v6_map()
    }
}

/// Inserting a network and then looking up an address inside it yields the
/// inserted category, provided no more specific stored prefix covers the
/// address. `post` is `pre` after the insert, exactly as
/// `RadixTree::insert` ensures.
pub proof fn lemma_insert_then_lookup(
    pre: RadixTree,
    post: RadixTree,
    n: IpNet,
    c: IpCategory,
    ip: IpAddress,
)
    requires
        pre.wf(),
        normalized(n),
        net_contains(n, ip),
        net_is_v4(n) ==> post.v4_map() == pre.v4_map().insert(n, c) && post.v6_map() == pre.v6_map(),
        !net_is_v4(n) ==> post.v6_map() == pre.v6_map().insert(n, c) && post.v4_map() == pre.v4_map(),
        forall|k: IpNet| #[trigger]
            is_match(family_map(pre, ip), ip, k) ==> net_prefix(k) <= net_prefix(n),
    ensures
        post.lookup_model(ip) == Some(c),
{
    let m1 = family_map(post, ip);
    assert(net_is_v4(n) == ip_is_v4(ip));
    assert(m1 == family_map(pre, ip).insert(n, c));
    assert(is_match(m1, ip, n));
    assert(forall|j: IpNet| #[trigger]
        is_match(m1, ip, j) ==> j == n || is_match(family_map(pre, ip), ip, j));
    assert(is_best_match(m1, ip, n));
    lemma_lpm_of_best(m1, ip, n);
}

/// An address covered by no stored prefix looks up to none.
pub proof fn lemma_uncovered_lookup_none(t: RadixTree, ip: IpAddress)
    requires
        t.wf(),
        forall|k: IpNet| t.v4_map().contains_key(k) ==> !#[trigger] net_contains(k, ip),
        forall|k: IpNet| t.v6_map().contains_key(k) ==> !#[trigger] net_contains(k, ip),
    ensures
        t.lookup_model(ip) is None,
{
    let m = family_map(t, ip);
    assert(forall|k: IpNet| !#[trigger] is_match(m, ip, k));
    assert(forall|k: IpNet| !#[trigger] is_best_match(m, ip, k));
}

/// Longest-prefix preference: among the stored prefixes covering an
/// address, a most specific one decides the lookup, whatever shorter
/// overlapping prefixes are also stored.
pub proof fn lemma_most_specific_wins(t: RadixTree, winner: IpNet, ip: IpAddress)
    requires
        t.wf(),
        is_match(family_map(t, ip), ip, winner),
        forall|k: IpNet| #[trigger]
            is_match(family_map(t, ip), ip, k) ==> net_prefix(k) <= net_prefix(winner),
    ensures
        t.lookup_model(ip) == Some(family_map(t, ip)[winner]),
{
    lemma_lpm_of_best(family_map(t, ip), ip, winner);
}

/// The two family tables never influence each other's lookups: two trees
/// that agree on the looked-up address's own family table answer alike,
/// whatever the other family holds.
pub proof fn lemma_families_independent(a: RadixTree, b: RadixTree, ip: IpAddress)
    requires
        ip_is_v4(ip) ==> a.v4_map() == b.v4_map(),
        !ip_is_v4(ip) ==> a.v6_map() == b.v6_map(),
    ensures
        a.lookup_model(ip) == b.lookup_model(ip),
{
}

/// Re-inserting an identical network and category changes nothing: the
/// stored map is the same afterwards, so every later lookup answers the
/// same, and by `RadixTree::insert`'s contract the second insert reports
/// `Some(c)` as the previous category.
pub proof fn lemma_reinsert_idempotent(m: Map<IpNet, IpCategory>, n: IpNet, c: IpCategory)
    ensures
        (m.insert(n, c).insert(n, c) == m.insert(n, c)),
        m.insert(n, c).contains_key(n),
        m.insert(n, c)[n] == c,
{
    assert(m.insert(n, c).insert(n, c) =~= m.insert(n, c));
}

/// The lock predicate of a shared tree: any well-formed tree may be stored.
pub struct TreeInv {}

impl RwLockPredicate<RadixTree> for TreeInv {
    open spec fn inv(self, t: RadixTree) -> bool {
        t.wf()
    }
}

/// A thread-safe wrapper around RadixTree. Readers borrow one complete
/// snapshot for the whole call; the refresh cycle replaces the snapshot
/// wholesale under the write half of the lock.
pub struct SharedRadixTree {
    lock: RwLock<RadixTree, TreeInv>,
}

/// `x + 1`, stopping at the counter's ceiling.
fn bump(x: u64) -> (r: u64)
    ensures
        r == if x < u64::MAX {
            x + 1
        } else {
            x as int
        },
{
    if x < u64::MAX {
        x + 1
    } else {
        x
    }
}

impl SharedRadixTree {
    /// Whether this handle's lock admits exactly the well-formed trees.
    pub closed spec fn wf(self) -> bool {
        self.lock.pred() == (TreeInv {  })
    }

    /// Create a new, empty SharedRadixTree.
    pub fn new() -> (r: Self)
        ensures
            r.wf(),
    {
        let tree = RadixTree::new();
        SharedRadixTree { lock: RwLock::new(tree, Ghost(TreeInv {  })) }
    }

    /// Wrap an already built tree.
    pub fn from_tree(tree: RadixTree) -> (r: Self)
        requires
            tree.wf(),
        ensures
            r.wf(),
    {
        SharedRadixTree { lock: RwLock::new(tree, Ghost(TreeInv {  })) }
    }

    /// Look up an IP address in the current snapshot and account for the
    /// lookup in the statistics: one complete snapshot answers the whole
    /// call, and the answer is its longest-prefix match for the address.
    pub fn lookup(&self, ip: IpAddress) -> (r: Option<IpCategory>)
        requires
            self.wf(),
        ensures
            exists|t: RadixTree| t.wf() && r == #[trigger] t.lookup_model(ip),
    {
        let (mut tree, handle) = self.lock.acquire_write();
        let result = tree.lookup(ip);
        let ghost witness = tree;
        tree.stats.total_lookups = bump(tree.stats.total_lookups);
        if result.is_some() {
            tree.stats.hits = bump(tree.stats.hits);
        } else {
            tree.stats.misses = bump(tree.stats.misses);
        }
        handle.release_write(tree);
        proof {
            assert(witness.wf() && result == witness.lookup_model(ip));
        }
        result
    }

    /// Replace the current tree with a new one: in-flight readers keep the
    /// old snapshot, later readers see only the new one.
    pub fn replace(&self, new_tree: RadixTree)
        requires
            self.wf(),
            new_tree.wf(),
    {
        let (old_tree, handle) = self.lock.acquire_write();
        handle.release_write(new_tree);
    }

    /// A point-in-time consistent copy of the lookup statistics.
    pub fn stats(&self) -> (r: LookupStats)
        requires
            self.wf(),
        ensures
            exists|t: RadixTree| t.wf() && r == #[trigger] t.stats_view(),
    {
        let handle = self.lock.acquire_read();
        let tree = handle.borrow();
        let copy = LookupStats {
            total_lookups: tree.stats.total_lookups,
            hits: tree.stats.hits,
            misses: tree.stats.misses,
            last_updated: tree.stats.last_updated,
        };
        let ghost witness = *tree;
        handle.release_read();
        proof {
            assert(witness.wf() && copy == witness.stats_view());
        }
        copy
    }

    /// The number of networks in the current snapshot, per family.
    pub fn len(&self) -> (r: (usize, usize))
        requires
            self.wf(),
        ensures
            exists|t: RadixTree|
                t.wf() && r.0 == t.v4_map().dom().len() && r.1 == #[trigger] t.v6_map().dom().len(),
    {
        let handle = self.lock.acquire_read();
        let tree = handle.borrow();
        let counts = tree.len();
        let ghost witness = *tree;
        handle.release_read();
        counts
    }

    /// The total number of networks in the current snapshot.
    pub fn total_len(&self) -> (r: usize)
        requires
            self.wf(),
    {
        let handle = self.lock.acquire_read();
        let tree = handle.borrow();
        let total = tree.total_len();
        handle.release_read();
        total
    }

    /// Whether the current snapshot holds no network.
    pub fn is_empty(&self) -> (r: bool)
        requires
            self.wf(),
        ensures
            exists|t: RadixTree|
                t.wf() && r == ((t.v4_map().dom() == Set::<IpNet>::empty()) && (#[trigger] t.v6_map().dom()
                    == Set::<IpNet>::empty())),
    {
        let handle = self.lock.acquire_read();
        let tree = handle.borrow();
        let empty = tree.is_empty();
        let ghost witness = *tree;
        handle.release_read();
        empty
    }
}

} // verus!
