//! Package headers: reference-counted views over the records owned by the
//! native engine.
//!
//! The engine owns every record's memory and hands out borrowed pointers;
//! the host side keeps one strong reference per live [`Header`] view, taken
//! on construction and given back exactly once.  [`HeaderStore`] models the
//! engine's arena — the records and their reference counts — so that the
//! link/free discipline is stated and checked rather than assumed.

use vstd::prelude::*;
use crate::internal::tag::Tag;
use crate::internal::td::TagData;
use crate::package::Package;

verus! {

/// One record's entries: tag codes paired with their decoded data, in
/// header order.
#[derive(Debug)]
pub struct Record {
    /// The entries, first match per tag code winning.
    pub entries: Vec<(i32, TagData)>,
}

/// The first entry for `code` in `s` at or after position `i`.
pub open spec fn first_match_from(s: Seq<(i32, TagData)>, code: i32, i: int) -> Option<TagData>
    decreases s.len() - i,
{
    if i < 0 || i >= s.len() {
        None
    } else if s[i].0 == code {
        Some(s[i].1)
    } else {
        first_match_from(s, code, i + 1)
    }
}

/// The first entry for `code` in `s`.
pub open spec fn first_match(s: Seq<(i32, TagData)>, code: i32) -> Option<TagData> {
    first_match_from(s, code, 0)
}

/// The string payload a record holds for `code`, through either
/// string-typed variant.
pub open spec fn str_field(r: Record, code: i32) -> Option<Seq<char>> {
    match first_match(r.entries@, code) {
        Some(TagData::Str(s)) => Some(s@),
        Some(TagData::I18NStr(s)) => Some(s@),
        _ => None,
    }
}

/// The first 32-bit integer a record holds for `code`.
pub open spec fn int32_field(r: Record, code: i32) -> Option<i32> {
    match first_match(r.entries@, code) {
        Some(TagData::Int32(v)) => if v@.len() > 0 {
            Some(v@[0])
        } else {
            None
        },
        _ => None,
    }
}

/// A well-formed record: every field a package snapshot requires is
/// present with the type the engine declares for it, and the two optional
/// fields, when present, carry their declared types too.
pub open spec fn record_wf(r: Record) -> bool {
    &&& str_field(r, 1000) is Some  // NAME
    &&& str_field(r, 1001) is Some  // VERSION
    &&& str_field(r, 1002) is Some  // RELEASE
    &&& str_field(r, 1014) is Some  // LICENSE
    &&& str_field(r, 1004) is Some  // SUMMARY
    &&& str_field(r, 1005) is Some  // DESCRIPTION
    &&& int32_field(r, 1006) is Some  // BUILDTIME
    &&& (first_match(r.entries@, 1003) matches Some(d) ==> int32_field(r, 1003) is Some)  // EPOCH
    &&& (first_match(r.entries@, 1022) matches Some(d) ==> str_field(r, 1022) is Some)  // ARCH
}

impl Record {
    /// The data this record holds for `code`, or `None` when absent.
    pub fn lookup(&self, code: i32) -> (r: Option<&TagData>)
        ensures
            match r {
                Some(d) => first_match(self.entries@, code) == Some(*d),
                None => first_match(self.entries@, code) is None,
            },
    {
        let ghost s = self.entries@;
        let mut i: usize = 0;
        while i < self.entries.len()
            invariant
                s == self.entries@,
                i <= s.len(),
                first_match(s, code) == first_match_from(s, code, i as int),
            decreases s.len() - i,
        {
            if self.entries[i].0 == code {
                return Some(&self.entries[i].1);
            }
            i = i + 1;
        }
        None
    }
}

/// Whether `p` is exactly the package snapshot of record `r`: every
/// required field copied out, the optional ones present exactly when the
/// record carries them.
pub open spec fn is_package_of(p: Package, r: Record) -> bool {
    &&& Some(p.spec_name()) == str_field(r, 1000)
    &&& p.spec_epoch() == int32_field(r, 1003)
    &&& Some(p.spec_version()) == str_field(r, 1001)
    &&& Some(p.spec_release()) == str_field(r, 1002)
    &&& p.spec_arch() == str_field(r, 1022)
    &&& Some(p.spec_license()) == str_field(r, 1014)
    &&& Some(p.spec_summary()) == str_field(r, 1004)
    &&& Some(p.spec_description()) == str_field(r, 1005)
    &&& Some(p.spec_buildtime()) == int32_field(r, 1006)
}

/// The engine's arena: the records of the open database, and the reference
/// count the engine tracks for each.
#[derive(Debug)]
pub struct HeaderStore {
    records: Vec<Record>,
    counts: Vec<u64>,
}

/// `counts` after one more reference to record `id` is taken.
pub open spec fn bumped(counts: Seq<u64>, id: int) -> Seq<u64> {
    counts.update(id, (counts[id] + 1) as u64)
}

/// `counts` after one reference to record `id` is given back.
pub open spec fn released(counts: Seq<u64>, id: int) -> Seq<u64> {
    counts.update(id, (counts[id] - 1) as u64)
}

/// `counts` after `n` references to record `id` are taken, one at a time.
pub open spec fn bumped_n(counts: Seq<u64>, id: int, n: nat) -> Seq<u64>
    decreases n,
{
    if n == 0 {
        counts
    } else {
        bumped(bumped_n(counts, id, (n - 1) as nat), id)
    }
}

/// `counts` after `n` references to record `id` are given back, one at a
/// time.
pub open spec fn released_n(counts: Seq<u64>, id: int, n: nat) -> Seq<u64>
    decreases n,
{
    if n == 0 {
        counts
    } else {
        released_n(released(counts, id), id, (n - 1) as nat)
    }
}

impl HeaderStore {
    /// The records held.
    pub closed spec fn spec_records(self) -> Seq<Record> {
        self.records@
    }

    /// The reference count of each record.
    pub closed spec fn spec_counts(self) -> Seq<u64> {
        self.counts@
    }

    /// One count per record.
    pub open spec fn wf(self) -> bool {
        self.spec_counts().len() == self.spec_records().len()
    }

    /// Open an arena over the given records, each with one reference held
    /// by the engine itself.
    pub fn new(records: Vec<Record>) -> (s: HeaderStore)
        ensures
            s.wf(),
            s.spec_records() == records@,
            s.spec_counts().len() == records@.len(),
            forall|i: int| 0 <= i < s.spec_counts().len() ==> s.spec_counts()[i] == 1u64,
    {
        let n = records.len();
        let mut counts: Vec<u64> = Vec::new();
        let mut i: usize = 0;
        while i < n
            invariant
                i <= n,
                counts@.len() == i,
                forall|j: int| 0 <= j < i ==> counts@[j] == 1u64,
            decreases n - i,
        {
            counts.push(1);
            i = i + 1;
        }
        HeaderStore { records, counts }
    }

    /// The number of records held.
    pub fn len(&self) -> (n: usize)
        ensures
            n == self.spec_records().len(),
    {
        self.records.len()
    }

    /// The record at `id`.
    pub fn record_at(&self, id: usize) -> (r: &Record)
        requires
            id < self.spec_records().len(),
        ensures
            *r == self.spec_records()[id as int],
    {
        &self.records[id]
    }

    /// The reference count currently tracked for one record.
    pub fn count_of(&self, id: usize) -> (c: u64)
        requires
            self.wf(),
            id < self.spec_records().len(),
        ensures
            c == self.spec_counts()[id as int],
    {
        self.counts[id]
    }
}

/// A reference-counted view of one record in the engine's arena.
///
/// Constructing a `Header` takes one strong reference on its record;
/// `release` gives that reference back, exactly once, consuming the view.
#[derive(Debug)]
pub struct Header {
    id: usize,
}

impl Header {
    /// The index of the record this view refers to.
    pub closed spec fn spec_id(self) -> int {
        self.id as int
    }

    /// The index of the record this view refers to.
    pub fn id(&self) -> (i: usize)
        ensures
            i == self.spec_id(),
    {
        self.id
    }

    /// Take a view of record `id`, incrementing the engine's reference
    /// count for it (as the native link call does).
    pub fn acquire(store: &mut HeaderStore, id: usize) -> (h: Header)
        requires
            old(store).wf(),
            id < old(store).spec_records().len(),
            old(store).spec_counts()[id as int] < u64::MAX,
        ensures
            final(store).wf(),
            h.spec_id() == id,
            final(store).spec_records() == old(store).spec_records(),
            final(store).spec_counts() == bumped(old(store).spec_counts(), id as int),
    {
        let c = store.counts[id];
        store.counts.set(id, c + 1);
        Header { id }
    }

    /// Give the view's reference back, decrementing the engine's count (as
    /// the native free call does).  Consumes the view: the reference is
    /// returned exactly once.
    pub fn release(self, store: &mut HeaderStore)
        requires
            old(store).wf(),
            self.spec_id() < old(store).spec_records().len(),
            old(store).spec_counts()[self.spec_id()] > 0,
        ensures
            final(store).wf(),
            final(store).spec_records() == old(store).spec_records(),
            final(store).spec_counts() == released(old(store).spec_counts(), self.spec_id()),
    {
        let c = store.counts[self.id];
        store.counts.set(self.id, c - 1);
    }

    /// The data this record holds for the given tag, or `None` when the
    /// tag is absent.
    pub fn get<'a>(&self, store: &'a HeaderStore, tag: Tag) -> (r: Option<&'a TagData>)
        requires
            store.wf(),
            self.spec_id() < store.spec_records().len(),
        ensures
            match r {
                Some(d) => first_match(
                    store.spec_records()[self.spec_id()].entries@,
                    tag.spec_code(),
                ) == Some(*d),
                None => first_match(
                    store.spec_records()[self.spec_id()].entries@,
                    tag.spec_code(),
                ) is None,
            },
    {
        let code = tag.code();
        store.records[self.id].lookup(code)
    }

    /// Convert this view into an owned, fully detached package snapshot.
    ///
    /// A well-formed record always carries the required fields; a record
    /// that lacks one indicates a broken invariant, so this conversion
    /// requires well-formedness instead of failing at run time.
    pub fn to_package(&self, store: &HeaderStore) -> (p: Package)
        requires
            store.wf(),
            self.spec_id() < store.spec_records().len(),
            record_wf(store.spec_records()[self.spec_id()]),
        ensures
            is_package_of(p, store.spec_records()[self.spec_id()]),
    {
        let name = self.required_str(store, Tag::NAME);
        let version = self.required_str(store, Tag::VERSION);
        let release = self.required_str(store, Tag::RELEASE);
        let license = self.required_str(store, Tag::LICENSE);
        let summary = self.required_str(store, Tag::SUMMARY);
        let description = self.required_str(store, Tag::DESCRIPTION);
        let epoch = self.optional_int32(store, Tag::EPOCH);
        let arch = self.optional_str(store, Tag::ARCH);
        let buildtime = match self.optional_int32(store, Tag::BUILDTIME) {
            Some(t) => t,
            None => {
                proof {
                    assert(false);
                }
                0
            },
        };
        Package::new(name, epoch, version, release, arch, license, summary, description, buildtime)
    }

    /// The string a record is known to hold for `tag`.
    fn required_str(&self, store: &HeaderStore, tag: Tag) -> (s: String)
        requires
            store.wf(),
            self.spec_id() < store.spec_records().len(),
            str_field(store.spec_records()[self.spec_id()], tag.spec_code()) is Some,
        ensures
            Some(s@) == str_field(store.spec_records()[self.spec_id()], tag.spec_code()),
    {
        match self.get(store, tag) {
            Some(d) => match d.as_str() {
                Some(s) => s.to_owned(),
                None => {
                    proof {
                        assert(false);
                    }
                    String::new()
                },
            },
            None => {
                proof {
                    assert(false);
                }
                String::new()
            },
        }
    }

    /// The string a record holds for `tag`, when it holds one.
    fn optional_str(&self, store: &HeaderStore, tag: Tag) -> (s: Option<String>)
        requires
            store.wf(),
            self.spec_id() < store.spec_records().len(),
        ensures
            match s {
                Some(x) => Some(x@) == str_field(
                    store.spec_records()[self.spec_id()],
                    tag.spec_code(),
                ),
                None => str_field(store.spec_records()[self.spec_id()], tag.spec_code()) is None,
            },
    {
        match self.get(store, tag) {
            Some(d) => match d.as_str() {
                Some(s) => Some(s.to_owned()),
                None => None,
            },
            None => None,
        }
    }

    /// The first 32-bit integer a record holds for `tag`, when it holds
    /// one.
    fn optional_int32(&self, store: &HeaderStore, tag: Tag) -> (r: Option<i32>)
        requires
            store.wf(),
            self.spec_id() < store.spec_records().len(),
        ensures
            r == int32_field(store.spec_records()[self.spec_id()], tag.spec_code()),
    {
        match self.get(store, tag) {
            Some(d) => d.to_int32(),
            None => None,
        }
    }
}

/// Taking `n` references to one record and giving all `n` back leaves
/// every reference count as it was: no leak, and no double free.
pub proof fn lemma_refcount_balance(counts: Seq<u64>, id: int, n: nat)
    requires
        0 <= id < counts.len(),
        counts[id] + n <= u64::MAX,
    ensures
        released_n(bumped_n(counts, id, n), id, n) == counts,
    decreases n,
{
    if n == 0 {
        assert(released_n(bumped_n(counts, id, 0), id, 0) =~= counts);
    } else {
        let b = bumped_n(counts, id, (n - 1) as nat);
        lemma_bumped_n_counts(counts, id, (n - 1) as nat);
        assert(released(bumped(b, id), id) =~= b);
        lemma_refcount_balance(counts, id, (n - 1) as nat);
    }
}

/// After `n` bumps, record `id` counts `n` more references and every other
/// record counts as before.
proof fn lemma_bumped_n_counts(counts: Seq<u64>, id: int, n: nat)
    requires
        0 <= id < counts.len(),
        counts[id] + n <= u64::MAX,
    ensures
        bumped_n(counts, id, n).len() == counts.len(),
        bumped_n(counts, id, n)[id] == counts[id] + n,
        forall|j: int| 0 <= j < counts.len() && j != id ==> bumped_n(counts, id, n)[j] == counts[j],
    decreases n,
{
    if n > 0 {
        lemma_bumped_n_counts(counts, id, (n - 1) as nat);
    }
}

} // verus!
