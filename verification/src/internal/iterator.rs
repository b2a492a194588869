//! Iterators over the matches of a database query.
//!
//! A match iterator holds the exclusive lease on the shared transaction
//! set for its whole lifetime, walks the matching records one native
//! fetch at a time, and keeps exactly one reference-counted header view —
//! the current item — alive between steps.  The sequence is forward-only
//! and non-restartable: each advance either produces the next match or
//! finishes the iterator for good.

use vstd::prelude::*;
use crate::internal::global_state::{GlobalState, TsLease};
use crate::internal::header::{
    bumped, released, str_field, Header, HeaderStore, Record,
};
use crate::internal::tag::Tag;
use crate::package::str_eq;

verus! {

/// Whether one record matches a query: no key, or an empty key, accepts
/// every record (a full scan); a non-empty key demands an exact match on
/// the queried field.
pub open spec fn tag_matches(r: Record, code: i32, key: Option<Seq<char>>) -> bool {
    match key {
        None => true,
        Some(k) => k.len() == 0 || str_field(r, code) == Some(k),
    }
}

/// The view of an optional borrowed key.
pub open spec fn key_view(key: Option<&str>) -> Option<Seq<char>> {
    match key {
        Some(k) => Some(k@),
        None => None,
    }
}

/// The indices of the records matching a query, in database order.
pub open spec fn matched_ids(records: Seq<Record>, code: i32, key: Option<Seq<char>>) -> Seq<int>
    decreases records.len(),
{
    if records.len() == 0 {
        Seq::empty()
    } else if tag_matches(records.last(), code, key) {
        matched_ids(records.drop_last(), code, key).push(records.len() - 1)
    } else {
        matched_ids(records.drop_last(), code, key)
    }
}

/// An empty key selects exactly what no key selects: every record.
pub proof fn lemma_empty_key_full_scan(records: Seq<Record>, code: i32, k: Seq<char>)
    requires
        k.len() == 0,
    ensures
        matched_ids(records, code, Some(k)) == matched_ids(records, code, None),
    decreases records.len(),
{
    if records.len() > 0 {
        lemma_empty_key_full_scan(records.drop_last(), code, k);
    }
}

/// A key that no record carries matches nothing: the scan is empty, not
/// an error.
pub proof fn lemma_missing_key_empty(records: Seq<Record>, code: i32, k: Seq<char>)
    requires
        k.len() > 0,
        forall|i: int| 0 <= i < records.len() ==> str_field(#[trigger] records[i], code) != Some(k),
    ensures
        matched_ids(records, code, Some(k)).len() == 0,
    decreases records.len(),
{
    if records.len() > 0 {
        assert(records.drop_last().len() == records.len() - 1);
        assert(forall|i: int|
            0 <= i < records.drop_last().len() ==> str_field(
                #[trigger] records.drop_last()[i],
                code,
            ) != Some(k));
        lemma_missing_key_empty(records.drop_last(), code, k);
        assert(records.last() == records[records.len() - 1]);
    }
}

/// A full scan selects every record.
pub proof fn lemma_full_scan_len(records: Seq<Record>, code: i32)
    ensures
        matched_ids(records, code, None).len() == records.len(),
        forall|i: int| 0 <= i < records.len() ==> #[trigger] matched_ids(records, code, None)[i]
            == i,
    decreases records.len(),
{
    if records.len() > 0 {
        lemma_full_scan_len(records.drop_last(), code);
    }
}

/// An iterator over the matches of one database query.
pub struct MatchIterator {
    lease: TsLease,
    matched: Vec<usize>,
    pos: usize,
    current: Option<Header>,
    finished: bool,
}

/// The reference counts once the current view's reference, if any, is
/// given back.
pub open spec fn base_counts(it: MatchIterator, store: HeaderStore) -> Seq<u64> {
    match it.spec_current() {
        Some(h) => released(store.spec_counts(), h.spec_id()),
        None => store.spec_counts(),
    }
}

impl MatchIterator {
    /// The indices of the matching records, in database order.
    pub closed spec fn spec_matched(self) -> Seq<usize> {
        self.matched@
    }

    /// How many matches have been fetched so far.
    pub closed spec fn spec_pos(self) -> int {
        self.pos as int
    }

    /// The current item, between an advance that produced it and the
    /// next.
    pub closed spec fn spec_current(self) -> Option<Header> {
        self.current
    }

    /// Whether the sequence is exhausted for good.
    pub closed spec fn spec_finished(self) -> bool {
        self.finished
    }

    /// The iterator's well-formedness against the arena it walks.
    pub open spec fn wf(self, store: HeaderStore) -> bool {
        &&& store.wf()
        &&& forall|i: int|
            0 <= i < self.spec_matched().len() ==> (#[trigger] self.spec_matched()[i])
                < store.spec_records().len()
        &&& forall|i: int, j: int|
            0 <= i < j < self.spec_matched().len() ==> #[trigger] self.spec_matched()[i]
                < #[trigger] self.spec_matched()[j]
        &&& 0 <= self.spec_pos() <= self.spec_matched().len()
        &&& (self.spec_finished() ==> self.spec_pos() == self.spec_matched().len()
            && self.spec_current() is None)
        &&& (self.spec_current() matches Some(h) ==> self.spec_pos() > 0 && h.spec_id()
            == self.spec_matched()[self.spec_pos() - 1] as int)
    }

    /// The current view's reference, when one is held, is backed by a
    /// positive count.
    pub open spec fn live_count_ok(self, store: HeaderStore) -> bool {
        self.spec_current() matches Some(h) ==> store.spec_counts()[h.spec_id()] > 0
    }

    /// The next record to be fetched, when there is one, can still take
    /// a reference.
    pub open spec fn next_count_ok(self, store: HeaderStore) -> bool {
        !self.spec_finished() && self.spec_pos() < self.spec_matched().len()
            ==> store.spec_counts()[self.spec_matched()[self.spec_pos()] as int] < u64::MAX
    }

    /// Open a query over the database for `tag`, with an optional
    /// exact-match key.  An empty key is a full scan, not "match
    /// nothing".  The caller hands in the exclusive lease; the iterator
    /// holds it until `finish`.
    pub fn new(lease: TsLease, store: &HeaderStore, tag: Tag, key: Option<&str>) -> (it:
        MatchIterator)
        requires
            store.wf(),
        ensures
            it.wf(*store),
            it.spec_matched().map_values(|u: usize| u as int) == matched_ids(
                store.spec_records(),
                tag.spec_code(),
                key_view(key),
            ),
            it.spec_pos() == 0,
            it.spec_current() is None,
            !it.spec_finished(),
    {
        let ghost keyv = key_view(key);
        let code = tag.code();
        let n = store.len();
        let mut matched: Vec<usize> = Vec::new();
        let mut i: usize = 0;
        while i < n
            invariant
                store.wf(),
                n == store.spec_records().len(),
                i <= n,
                code == tag.spec_code(),
                keyv == key_view(key),
                matched@.map_values(|u: usize| u as int) == matched_ids(
                    store.spec_records().subrange(0, i as int),
                    code,
                    keyv,
                ),
                forall|j: int| 0 <= j < matched@.len() ==> (#[trigger] matched@[j]) < i,
                forall|a: int, b: int|
                    0 <= a < b < matched@.len() ==> #[trigger] matched@[a] < #[trigger] matched@[b],
            decreases n - i,
        {
            let ghost recs = store.spec_records();
            let ghost prefix = recs.subrange(0, i as int);
            let ghost next_prefix = recs.subrange(0, i as int + 1);
            proof {
                assert(next_prefix.drop_last() =~= prefix);
                assert(next_prefix.last() == recs[i as int]);
            }
            let ghost before = matched@;
            if record_matches(store.record_at(i), code, key) {
                matched.push(i);
                proof {
                    assert(matched@.map_values(|u: usize| u as int) =~= before.map_values(
                        |u: usize| u as int,
                    ).push(i as int));
                    assert(matched_ids(next_prefix, code, keyv) == matched_ids(
                        prefix,
                        code,
                        keyv,
                    ).push(i as int));
                }
            } else {
                proof {
                    assert(matched_ids(next_prefix, code, keyv) == matched_ids(
                        prefix,
                        code,
                        keyv,
                    ));
                }
            }
            i = i + 1;
        }
        proof {
            assert(store.spec_records().subrange(0, n as int) =~= store.spec_records());
        }
        MatchIterator { lease, matched, pos: 0, current: None, finished: false }
    }

    /// One step of the protocol: a no-op once finished; otherwise the
    /// previous item's reference is given back, and either the next
    /// matching record is fetched as the new current item (taking a
    /// reference on it) or the iterator finishes and clears the item.
    pub fn advance(&mut self, store: &mut HeaderStore)
        requires
            old(self).wf(*old(store)),
            old(self).live_count_ok(*old(store)),
            old(self).next_count_ok(*old(store)),
        ensures
            final(self).wf(*final(store)),
            final(store).spec_records() == old(store).spec_records(),
            final(self).spec_matched() == old(self).spec_matched(),
            old(self).spec_finished() ==> *final(self) == *old(self)
                && final(store).spec_counts() == old(store).spec_counts(),
            (!old(self).spec_finished() && old(self).spec_pos() < old(self).spec_matched().len())
                ==> ({
                &&& final(self).spec_pos() == old(self).spec_pos() + 1
                &&& !final(self).spec_finished()
                &&& (final(self).spec_current() matches Some(h) && h.spec_id() == old(
                    self,
                ).spec_matched()[old(self).spec_pos()] as int)
                &&& final(store).spec_counts() == bumped(
                    base_counts(*old(self), *old(store)),
                    old(self).spec_matched()[old(self).spec_pos()] as int,
                )
            }),
            (!old(self).spec_finished() && old(self).spec_pos() == old(self).spec_matched().len())
                ==> ({
                &&& final(self).spec_finished()
                &&& final(self).spec_current() is None
                &&& final(self).spec_pos() == old(self).spec_pos()
                &&& final(store).spec_counts() == base_counts(*old(self), *old(store))
            }),
    {
        if self.finished {
            return ;
        }
        let prev = self.current.take();
        match prev {
            Some(h) => h.release(store),
            None => {},
        }
        if self.pos < self.matched.len() {
            let id = self.matched[self.pos];
            let h = Header::acquire(store, id);
            self.current = Some(h);
            self.pos = self.pos + 1;
        } else {
            self.finished = true;
        }
    }

    /// The current item: none before the first advance and none after
    /// the iterator finished.
    pub fn get(&self) -> (r: Option<&Header>)
        ensures
            match r {
                Some(h) => self.spec_current() == Some(*h),
                None => self.spec_current() is None,
            },
    {
        self.current.as_ref()
    }

    /// Close the query.  The order matters: the current item's reference
    /// is given back first, then — through the lease — the shared
    /// transaction set is cleaned, and only then is the lease released
    /// for the next taker.
    pub fn finish(self, store: &mut HeaderStore, state: &mut GlobalState)
        requires
            self.wf(*old(store)),
            self.live_count_ok(*old(store)),
        ensures
            final(store).wf(),
            final(store).spec_records() == old(store).spec_records(),
            final(store).spec_counts() == base_counts(self, *old(store)),
            !final(state).spec_leased(),
            final(state).spec_configured() == old(state).spec_configured(),
            final(state).spec_ts().spec_elements().len() == 0,
            final(state).spec_ts().spec_flags() == old(state).spec_ts().spec_flags(),
    {
        let MatchIterator { lease, matched: _, pos: _, current, finished: _ } = self;
        match current {
            Some(h) => h.release(store),
            None => {},
        }
        state.release_ts(lease);
    }
}

/// Whether one record matches the query, decided over its decoded field.
fn record_matches(r: &Record, code: i32, key: Option<&str>) -> (b: bool)
    ensures
        b == tag_matches(*r, code, key_view(key)),
{
    match key {
        None => true,
        Some(k) => {
            if k.is_empty() {
                true
            } else {
                match r.lookup(code) {
                    Some(d) => match d.as_str() {
                        Some(s) => str_eq(s, k),
                        None => false,
                    },
                    None => false,
                }
            }
        },
    }
}

} // verus!
