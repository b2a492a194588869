//! RPM database access.
//!
//! A database is an arena of well-formed records.  Queries go through a
//! match iterator that holds the global lease for its whole lifetime and
//! yields owned [`Package`] snapshots; walking a query to its end gives
//! back every reference it took and leaves the engine's counts exactly as
//! they were.

use vstd::prelude::*;
use crate::error::{Error, ErrorKind};
use crate::internal::global_state::GlobalState;
use crate::internal::header::{
    bumped, is_package_of, record_wf, released, HeaderStore, Record,
};
use crate::internal::iterator::{base_counts, matched_ids, MatchIterator};
use crate::internal::tag::Tag;
use crate::package::Package;

verus! {

/// Every record of the database is well formed.
pub open spec fn db_records_wf(store: HeaderStore) -> bool {
    forall|i: int|
        0 <= i < store.spec_records().len() ==> record_wf(#[trigger] store.spec_records()[i])
}

/// Whether a record holds the string payload a package snapshot would
/// read for `code`.
fn has_str_field(r: &Record, code: i32) -> (b: bool)
    ensures
        b == (crate::internal::header::str_field(*r, code) is Some),
{
    match r.lookup(code) {
        Some(d) => d.as_str().is_some(),
        None => false,
    }
}

/// Whether a record holds a 32-bit integer for `code`.
fn has_int32_field(r: &Record, code: i32) -> (b: bool)
    ensures
        b == (crate::internal::header::int32_field(*r, code) is Some),
{
    match r.lookup(code) {
        Some(d) => d.to_int32().is_some(),
        None => false,
    }
}

/// Whether a record is well formed: every required package field present
/// with its declared type, the optional ones typed right when present.
fn check_record(r: &Record) -> (b: bool)
    ensures
        b == record_wf(*r),
{
    let name_ok = has_str_field(r, 1000);
    let version_ok = has_str_field(r, 1001);
    let release_ok = has_str_field(r, 1002);
    let license_ok = has_str_field(r, 1014);
    let summary_ok = has_str_field(r, 1004);
    let description_ok = has_str_field(r, 1005);
    let buildtime_ok = has_int32_field(r, 1006);
    let epoch_ok = match r.lookup(1003) {
        Some(d) => d.to_int32().is_some(),
        None => true,
    };
    let arch_ok = match r.lookup(1022) {
        Some(d) => d.as_str().is_some(),
        None => true,
    };
    name_ok && version_ok && release_ok && license_ok && summary_ok && description_ok
        && buildtime_ok && epoch_ok && arch_ok
}

/// Open a database over the given records.
///
/// Every record is checked up front; one that lacks a required field or
/// carries it with the wrong type refuses the whole database as corrupt
/// rather than failing later, mid-iteration.
pub fn open_db(records: Vec<Record>) -> (r: Result<HeaderStore, Error>)
    ensures
        r is Ok <==> (forall|i: int|
            0 <= i < records@.len() ==> record_wf(#[trigger] records@[i])),
        r matches Ok(s) ==> s.wf() && db_records_wf(s) && s.spec_records() == records@ && (
        forall|i: int| 0 <= i < s.spec_counts().len() ==> #[trigger] s.spec_counts()[i] == 1u64),
        r matches Err(e) ==> e.spec_kind() == ErrorKind::Decode,
{
    let n = records.len();
    let mut i: usize = 0;
    while i < n
        invariant
            n == records@.len(),
            i <= n,
            forall|j: int| 0 <= j < i ==> record_wf(#[trigger] records@[j]),
        decreases n - i,
    {
        if !check_record(&records[i]) {
            return Err(Error::new(ErrorKind::Decode, None));
        }
        i = i + 1;
    }
    Ok(HeaderStore::new(records))
}

/// Searchable fields in the RPM package headers.
#[derive(Copy, Clone, Debug, Eq, PartialEq, Structural, Hash)]
pub enum Index {
    /// Search by package name.
    Name,
    /// Search by package version.
    Version,
    /// Search by package license.
    License,
    /// Search by package summary.
    Summary,
    /// Search by package description.
    Description,
}

impl Index {
    /// The header tag this index searches.
    pub open spec fn spec_tag(self) -> Tag {
        match self {
            Index::Name => Tag::NAME,
            Index::Version => Tag::VERSION,
            Index::License => Tag::LICENSE,
            Index::Summary => Tag::SUMMARY,
            Index::Description => Tag::DESCRIPTION,
        }
    }

    /// The header tag this index searches.
    pub fn tag(self) -> (t: Tag)
        ensures
            t == self.spec_tag(),
    {
        match self {
            Index::Name => Tag::NAME,
            Index::Version => Tag::VERSION,
            Index::License => Tag::LICENSE,
            Index::Summary => Tag::SUMMARY,
            Index::Description => Tag::DESCRIPTION,
        }
    }

    /// Find the records whose indexed field exactly matches `key` (an
    /// empty key scans everything).
    ///
    /// Takes the global lease; `None` means the lease is already out —
    /// the native shell waits on its lock instead.
    pub fn find(self, state: &mut GlobalState, store: &HeaderStore, key: &str) -> (r: Option<
        Iter,
    >)
        requires
            store.wf(),
        ensures
            final(state).spec_configured() == old(state).spec_configured(),
            final(state).spec_ts() == old(state).spec_ts(),
            final(state).spec_leased(),
            old(state).spec_leased() ==> r is None,
            !old(state).spec_leased() ==> (r matches Some(it) && fresh_query(
                it,
                *store,
                self.spec_tag(),
                Some(key@),
            )),
    {
        match state.acquire_ts() {
            Some(lease) => Some(
                Iter { it: MatchIterator::new(lease, store, self.tag(), Some(key)) },
            ),
            None => None,
        }
    }
}

impl From<Index> for Tag {
    /// The header tag an index searches.
    fn from(i: Index) -> (t: Tag) {
        i.tag()
    }
}

impl vstd::std_specs::convert::FromSpecImpl<Index> for Tag {
    open spec fn obeys_from_spec() -> bool {
        true
    }

    open spec fn from_spec(i: Index) -> Tag {
        i.spec_tag()
    }
}

/// Whether `it` is a freshly opened query over `store` for `code` and
/// `key`: nothing fetched yet, and the matches computed.
pub open spec fn fresh_query(
    it: Iter,
    store: HeaderStore,
    tag: Tag,
    key: Option<Seq<char>>,
) -> bool {
    &&& it.spec_it().wf(store)
    &&& it.spec_it().spec_pos() == 0
    &&& it.spec_it().spec_current() is None
    &&& !it.spec_it().spec_finished()
    &&& it.spec_it().spec_matched().map_values(|u: usize| u as int) == matched_ids(
        store.spec_records(),
        tag.spec_code(),
        key,
    )
}

/// Find all packages installed on the local system: a full scan by the
/// name tag, with no key.
pub fn installed_packages(state: &mut GlobalState, store: &HeaderStore) -> (r: Option<Iter>)
    requires
        store.wf(),
    ensures
        final(state).spec_configured() == old(state).spec_configured(),
        final(state).spec_ts() == old(state).spec_ts(),
        final(state).spec_leased(),
        old(state).spec_leased() ==> r is None,
        !old(state).spec_leased() ==> (r matches Some(it) && fresh_query(
            it,
            *store,
            Tag::NAME,
            None,
        )),
{
    match state.acquire_ts() {
        Some(lease) => Some(Iter { it: MatchIterator::new(lease, store, Tag::NAME, None) }),
        None => None,
    }
}

/// Find installed packages whose indexed field exactly matches the given
/// key.
pub fn find(index: Index, state: &mut GlobalState, store: &HeaderStore, key: &str) -> (r: Option<
    Iter,
>)
    requires
        store.wf(),
    ensures
        final(state).spec_configured() == old(state).spec_configured(),
        final(state).spec_ts() == old(state).spec_ts(),
        final(state).spec_leased(),
        old(state).spec_leased() ==> r is None,
        !old(state).spec_leased() ==> (r matches Some(it) && fresh_query(
            it,
            *store,
            index.spec_tag(),
            Some(key@),
        )),
{
    index.find(state, store, key)
}

/// An iterator over the database that yields owned `Package` snapshots.
pub struct Iter {
    it: MatchIterator,
}

impl Iter {
    /// The underlying match iterator.
    pub closed spec fn spec_it(self) -> MatchIterator {
        self.it
    }

    /// Fetch the next matching package, or `None` once the query is
    /// exhausted.
    pub fn next(&mut self, store: &mut HeaderStore) -> (r: Option<Package>)
        requires
            old(self).spec_it().wf(*old(store)),
            old(self).spec_it().live_count_ok(*old(store)),
            old(self).spec_it().next_count_ok(*old(store)),
            db_records_wf(*old(store)),
        ensures
            final(self).spec_it().wf(*final(store)),
            final(store).spec_records() == old(store).spec_records(),
            final(self).spec_it().spec_matched() == old(self).spec_it().spec_matched(),
            old(self).spec_it().spec_finished() ==> r is None && *final(self) == *old(self)
                && final(store).spec_counts() == old(store).spec_counts(),
            (!old(self).spec_it().spec_finished() && old(self).spec_it().spec_pos() < old(
                self,
            ).spec_it().spec_matched().len()) ==> ({
                &&& (r matches Some(p) && is_package_of(
                    p,
                    old(store).spec_records()[old(self).spec_it().spec_matched()[old(
                        self,
                    ).spec_it().spec_pos()] as int],
                ))
                &&& final(self).spec_it().spec_pos() == old(self).spec_it().spec_pos() + 1
                &&& !final(self).spec_it().spec_finished()
                &&& final(self).spec_it().spec_current() is Some
                &&& final(store).spec_counts() == bumped(
                    base_counts(old(self).spec_it(), *old(store)),
                    old(self).spec_it().spec_matched()[old(self).spec_it().spec_pos()] as int,
                )
            }),
            (!old(self).spec_it().spec_finished() && old(self).spec_it().spec_pos() == old(
                self,
            ).spec_it().spec_matched().len()) ==> ({
                &&& r is None
                &&& final(self).spec_it().spec_finished()
                &&& final(store).spec_counts() == base_counts(old(self).spec_it(), *old(store))
            }),
    {
        self.it.advance(store);
        match self.it.get() {
            Some(h) => Some(h.to_package(store)),
            None => None,
        }
    }

    /// Close the query: give the current item's reference back, clean the
    /// shared transaction set through the lease, and release the lease.
    pub fn finish(self, store: &mut HeaderStore, state: &mut GlobalState)
        requires
            self.spec_it().wf(*old(store)),
            self.spec_it().live_count_ok(*old(store)),
        ensures
            final(store).wf(),
            final(store).spec_records() == old(store).spec_records(),
            final(store).spec_counts() == base_counts(self.spec_it(), *old(store)),
            !final(state).spec_leased(),
            final(state).spec_configured() == old(state).spec_configured(),
            final(state).spec_ts().spec_elements().len() == 0,
            final(state).spec_ts().spec_flags() == old(state).spec_ts().spec_flags(),
    {
        let Iter { it } = self;
        it.finish(store, state)
    }

    /// Walk a fresh query to its end and close it.
    ///
    /// Repeated advancing always terminates: exactly one package comes
    /// out per matching record, in database order, and afterwards the
    /// iterator is spent.  Every header reference taken along the way has
    /// been given back — the engine's reference counts end exactly as
    /// they started — and the lease is released with the shared
    /// transaction set cleaned.
    pub fn collect_packages(self, store: &mut HeaderStore, state: &mut GlobalState) -> (v: Vec<
        Package,
    >)
        requires
            db_records_wf(*old(store)),
            self.spec_it().wf(*old(store)),
            self.spec_it().spec_pos() == 0,
            self.spec_it().spec_current() is None,
            !self.spec_it().spec_finished(),
            forall|i: int|
                0 <= i < old(store).spec_counts().len() ==> #[trigger] old(store).spec_counts()[i]
                    < u64::MAX,
        ensures
            v@.len() == self.spec_it().spec_matched().len(),
            forall|j: int|
                0 <= j < v@.len() ==> is_package_of(
                    #[trigger] v@[j],
                    old(store).spec_records()[self.spec_it().spec_matched()[j] as int],
                ),
            final(store).spec_records() == old(store).spec_records(),
            final(store).spec_counts() == old(store).spec_counts(),
            !final(state).spec_leased(),
            final(state).spec_configured() == old(state).spec_configured(),
            final(state).spec_ts().spec_elements().len() == 0,
    {
        let ghost base = old(store).spec_counts();
        let ghost recs0 = old(store).spec_records();
        let ghost matched0 = self.spec_it().spec_matched();
        let mut me = self;
        let mut out: Vec<Package> = Vec::new();
        let mut going = true;
        while going
            invariant
                db_records_wf(*store),
                me.spec_it().wf(*store),
                store.spec_records() == recs0,
                me.spec_it().spec_matched() == matched0,
                out@.len() == me.spec_it().spec_pos(),
                forall|j: int|
                    0 <= j < out@.len() ==> is_package_of(
                        #[trigger] out@[j],
                        recs0[matched0[j] as int],
                    ),
                store.spec_counts() == (match me.spec_it().spec_current() {
                    Some(h) => bumped(base, h.spec_id()),
                    None => base,
                }),
                base.len() == recs0.len(),
                forall|i: int| 0 <= i < base.len() ==> #[trigger] base[i] < u64::MAX,
                going == !me.spec_it().spec_finished(),
            decreases matched0.len() - me.spec_it().spec_pos() + (if going {
                1int
            } else {
                0int
            }),
        {
            proof {
                let it = me.spec_it();
                if it.spec_current() is Some {
                    let h = it.spec_current()->Some_0;
                    assert(store.spec_counts()[h.spec_id()] == base[h.spec_id()] + 1);
                }
                if !it.spec_finished() && it.spec_pos() < it.spec_matched().len() {
                    let next_id = it.spec_matched()[it.spec_pos()] as int;
                    match it.spec_current() {
                        Some(h) => {
                            assert(h.spec_id() == it.spec_matched()[it.spec_pos() - 1] as int);
                            assert(h.spec_id() != next_id);
                            assert(store.spec_counts()[next_id] == base[next_id]);
                        },
                        None => {},
                    }
                }
            }
            let ghost pre_it = me.spec_it();
            let ghost pre_counts = store.spec_counts();
            let r = me.next(store);
            match r {
                Some(p) => {
                    out.push(p);
                },
                None => {
                    going = false;
                },
            }
            proof {
                let ghost restored = base_counts(pre_it, *store);
                match pre_it.spec_current() {
                    Some(h) => {
                        assert(pre_counts == bumped(base, h.spec_id()));
                        assert(base[h.spec_id()] < u64::MAX);
                        assert(released(pre_counts, h.spec_id()) =~= base);
                    },
                    None => {},
                }
                if r is Some {
                    let next_id = pre_it.spec_matched()[pre_it.spec_pos()] as int;
                    assert(store.spec_counts() =~= bumped(base, next_id));
                } else {
                    assert(store.spec_counts() =~= base);
                }
            }
        }
        me.finish(store, state);
        proof {
            assert(store.spec_counts() =~= base);
        }
        out
    }
}

} // verus!
