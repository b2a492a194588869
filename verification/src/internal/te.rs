//! Transaction elements: the staged actions inside a transaction set.

use vstd::prelude::*;
use vstd::string::StringExecFns;
use crate::internal::problem::Problem;
use crate::package::int_str;

verus! {

/// The classification of one element (`rpmElementType_e` in the native
/// engine).  Each variant is one bit, so that a query can select several
/// classes at once.
#[derive(Copy, Clone, Debug, Eq, PartialEq, Structural, Hash)]
pub enum ElementType {
    /// Staged for installation.
    ADDED,
    /// Staged for removal.
    REMOVED,
    /// Drawn from the installed database.
    RPMDB,
}

impl ElementType {
    /// The bit the native engine assigns to this class.
    pub open spec fn spec_mask(self) -> u32 {
        match self {
            ElementType::ADDED => 1u32,
            ElementType::REMOVED => 2u32,
            ElementType::RPMDB => 4u32,
        }
    }

    /// The bit the native engine assigns to this class.
    pub fn mask(self) -> (m: u32)
        ensures
            m == self.spec_mask(),
    {
        match self {
            ElementType::ADDED => 1u32,
            ElementType::REMOVED => 2u32,
            ElementType::RPMDB => 4u32,
        }
    }
}

/// A composable selection of element classes.
#[derive(Copy, Clone, Debug, Eq, PartialEq, Structural, Hash)]
pub struct ElementTypeFilter {
    /// The union of the selected classes' bits.
    pub bits: u32,
}

impl ElementTypeFilter {
    /// The empty selection.
    pub fn none() -> (f: ElementTypeFilter)
        ensures
            f.bits == 0u32,
    {
        ElementTypeFilter { bits: 0 }
    }

    /// Every class.
    pub fn any() -> (f: ElementTypeFilter)
        ensures
            f.bits == 7u32,
    {
        ElementTypeFilter { bits: 7 }
    }

    /// The selection holding exactly one class.
    pub fn only(t: ElementType) -> (f: ElementTypeFilter)
        ensures
            f.bits == t.spec_mask(),
    {
        ElementTypeFilter { bits: t.mask() }
    }

    /// The union of two selections.
    pub fn union(self, other: ElementTypeFilter) -> (f: ElementTypeFilter)
        ensures
            f.bits == (self.bits | other.bits),
    {
        ElementTypeFilter { bits: self.bits | other.bits }
    }

    /// Whether this selection accepts the given class.
    pub open spec fn spec_accepts(self, t: ElementType) -> bool {
        self.bits & t.spec_mask() != 0
    }

    /// Whether this selection accepts the given class.
    pub fn accepts(self, t: ElementType) -> (b: bool)
        ensures
            b == self.spec_accepts(t),
    {
        self.bits & t.mask() != 0
    }
}

/// One staged action: the identity of the package it concerns, its
/// classification, and its bookkeeping fields.
#[derive(Debug)]
pub struct TransactionElement {
    /// The classification of this element.
    pub element_type: ElementType,
    /// The package name.
    pub name: String,
    /// The epoch, when the package carries one.
    pub epoch: Option<i32>,
    /// The version.
    pub version: String,
    /// The release.
    pub release: String,
    /// The architecture, when known.
    pub arch: Option<String>,
    /// The operating system, when known.
    pub os: Option<String>,
    /// Whether the element concerns a source package.
    pub is_source: bool,
    /// The element's color bits.
    pub color: u32,
    /// The database instance the element was drawn from.
    pub db_instance: u32,
    /// The index of the parent element, when there is one.
    pub parent: Option<usize>,
    /// The index of the element this one depends on, when there is one.
    pub depends_on: Option<usize>,
    /// The problems recorded against this element.
    pub problems: Vec<Problem>,
    /// The index of the header this element is bound to, when any.
    pub header_id: Option<usize>,
}

impl TransactionElement {
    /// The classification of this element.
    pub open spec fn spec_element_type(self) -> ElementType {
        self.element_type
    }

    /// The package name.
    pub open spec fn spec_name(self) -> Seq<char> {
        self.name@
    }

    /// The epoch, when the package carries one.
    pub open spec fn spec_epoch(self) -> Option<i32> {
        self.epoch
    }

    /// The version.
    pub open spec fn spec_version(self) -> Seq<char> {
        self.version@
    }

    /// The release.
    pub open spec fn spec_release(self) -> Seq<char> {
        self.release@
    }

    /// The architecture, when known.
    pub open spec fn spec_arch(self) -> Option<Seq<char>> {
        match self.arch {
            Some(a) => Some(a@),
            None => None,
        }
    }

    /// The operating system, when known.
    pub open spec fn spec_os(self) -> Option<Seq<char>> {
        match self.os {
            Some(o) => Some(o@),
            None => None,
        }
    }

    /// Whether the element concerns a source package.
    pub open spec fn spec_is_source(self) -> bool {
        self.is_source
    }

    /// The element's color bits.
    pub open spec fn spec_color(self) -> u32 {
        self.color
    }

    /// The database instance the element was drawn from.
    pub open spec fn spec_db_instance(self) -> u32 {
        self.db_instance
    }

    /// The index of the parent element, when there is one.
    pub open spec fn spec_parent(self) -> Option<usize> {
        self.parent
    }

    /// The index of the element this one depends on, when there is one.
    pub open spec fn spec_depends_on(self) -> Option<usize> {
        self.depends_on
    }

    /// The problems recorded against this element.
    pub open spec fn spec_problems(self) -> Seq<Problem> {
        self.problems@
    }

    /// The index of the header this element is bound to, when any.
    pub open spec fn spec_header_id(self) -> Option<usize> {
        self.header_id
    }

    /// Stage a new element of the given class for the given package
    /// identity.
    pub fn new(
        element_type: ElementType,
        name: &str,
        epoch: Option<i32>,
        version: &str,
        release: &str,
        arch: Option<String>,
        os: Option<String>,
    ) -> (e: TransactionElement)
        ensures
            e.spec_element_type() == element_type,
            e.spec_name() == name@,
            e.spec_epoch() == epoch,
            e.spec_version() == version@,
            e.spec_release() == release@,
            e.spec_arch() == (match arch {
                Some(a) => Some::<Seq<char>>(a@),
                None => None::<Seq<char>>,
            }),
            e.spec_os() == (match os {
                Some(o) => Some::<Seq<char>>(o@),
                None => None::<Seq<char>>,
            }),
            !e.spec_is_source(),
            e.spec_color() == 0u32,
            e.spec_db_instance() == 0u32,
            e.spec_parent() is None,
            e.spec_depends_on() is None,
            e.spec_problems().len() == 0,
            e.spec_header_id() is None,
    {
        TransactionElement {
            element_type,
            name: String::from_str(name),
            epoch,
            version: String::from_str(version),
            release: String::from_str(release),
            arch,
            os,
            is_source: false,
            color: 0,
            db_instance: 0,
            parent: None,
            depends_on: None,
            problems: Vec::new(),
            header_id: None,
        }
    }

    /// The classification of this element.
    pub fn element_type(&self) -> (t: ElementType)
        ensures
            t == self.spec_element_type(),
    {
        self.element_type
    }

    /// The package name.
    pub fn name(&self) -> (s: &str)
        ensures
            s@ == self.spec_name(),
    {
        self.name.as_str()
    }

    /// The epoch rendered as the engine hands it out: its decimal digits,
    /// or the empty string when the package carries none.
    pub fn epoch(&self) -> (s: String)
        ensures
            s@ == (match self.spec_epoch() {
                Some(e) => int_str(e as int),
                None => Seq::<char>::empty(),
            }),
    {
        match self.epoch {
            Some(e) => epoch_string(e),
            None => String::new(),
        }
    }

    /// The version.
    pub fn version(&self) -> (s: &str)
        ensures
            s@ == self.spec_version(),
    {
        self.version.as_str()
    }

    /// The release.
    pub fn release(&self) -> (s: &str)
        ensures
            s@ == self.spec_release(),
    {
        self.release.as_str()
    }

    /// The architecture, or the empty string when unknown.
    pub fn arch(&self) -> (s: &str)
        ensures
            s@ == (match self.spec_arch() {
                Some(a) => a,
                None => Seq::<char>::empty(),
            }),
    {
        match &self.arch {
            Some(a) => a.as_str(),
            None => empty_str(),
        }
    }

    /// The operating system, or the empty string when unknown.
    pub fn os(&self) -> (s: &str)
        ensures
            s@ == (match self.spec_os() {
                Some(o) => o,
                None => Seq::<char>::empty(),
            }),
    {
        match &self.os {
            Some(o) => o.as_str(),
            None => empty_str(),
        }
    }

    /// Whether the element concerns a source package.
    pub fn is_source(&self) -> (b: bool)
        ensures
            b == self.spec_is_source(),
    {
        self.is_source
    }

    /// The element's color bits.
    pub fn color(&self) -> (c: u32)
        ensures
            c == self.spec_color(),
    {
        self.color
    }

    /// Set the element's color bits.
    pub fn set_color(&mut self, color: u32)
        ensures
            final(self).spec_color() == color,
            *final(self) == (TransactionElement { color, ..*old(self) }),
    {
        self.color = color;
    }

    /// The database instance the element was drawn from.
    pub fn db_instance(&self) -> (i: u32)
        ensures
            i == self.spec_db_instance(),
    {
        self.db_instance
    }

    /// Record the database instance the element was drawn from.
    pub fn set_db_instance(&mut self, db_instance: u32)
        ensures
            final(self).spec_db_instance() == db_instance,
            *final(self) == (TransactionElement { db_instance, ..*old(self) }),
    {
        self.db_instance = db_instance;
    }

    /// The index of the parent element, when there is one.  The relation
    /// is navigational only: no ownership is implied.
    pub fn parent(&self) -> (p: Option<usize>)
        ensures
            p == self.spec_parent(),
    {
        self.parent
    }

    /// Record the parent element.
    pub fn set_parent(&mut self, parent: Option<usize>)
        ensures
            final(self).spec_parent() == parent,
            *final(self) == (TransactionElement { parent, ..*old(self) }),
    {
        self.parent = parent;
    }

    /// The index of the element this one depends on, when there is one.
    pub fn dependson(&self) -> (p: Option<usize>)
        ensures
            p == self.spec_depends_on(),
    {
        self.depends_on
    }

    /// Record the element this one depends on.
    pub fn set_dependson(&mut self, depends_on: Option<usize>)
        ensures
            final(self).spec_depends_on() == depends_on,
            *final(self) == (TransactionElement { depends_on, ..*old(self) }),
    {
        self.depends_on = depends_on;
    }

    /// The index of the header this element is bound to, when any.
    pub fn header(&self) -> (h: Option<usize>)
        ensures
            h == self.spec_header_id(),
    {
        self.header_id
    }

    /// Bind the element to a header.
    pub fn set_header(&mut self, header_id: Option<usize>)
        ensures
            final(self).spec_header_id() == header_id,
            *final(self) == (TransactionElement { header_id, ..*old(self) }),
    {
        self.header_id = header_id;
    }

    /// The problems recorded against this element.
    pub fn problems(&self) -> (p: &Vec<Problem>)
        ensures
            p@ == self.spec_problems(),
    {
        &self.problems
    }

    /// Record one more problem against this element.
    pub fn record_problem(&mut self, p: Problem)
        ensures
            final(self).spec_problems() == old(self).spec_problems().push(p),
            final(self).spec_element_type() == old(self).spec_element_type(),
            final(self).spec_name() == old(self).spec_name(),
    {
        self.problems.push(p);
    }

    /// Drop every recorded problem.
    pub fn clean_problems(&mut self)
        ensures
            final(self).spec_problems().len() == 0,
            final(self).spec_element_type() == old(self).spec_element_type(),
            final(self).spec_name() == old(self).spec_name(),
    {
        self.problems = Vec::new();
    }

    /// The EVR (epoch, version, release) rendering of this element's
    /// package identity.
    pub open spec fn spec_evr(self) -> Seq<char> {
        match self.spec_epoch() {
            Some(e) => int_str(e as int) + seq![':'] + self.spec_version() + seq!['-']
                + self.spec_release(),
            None => self.spec_version() + seq!['-'] + self.spec_release(),
        }
    }

    /// EVR (epoch, version, release) of this element's package.
    pub fn evr(&self) -> (s: String)
        ensures
            s@ == self.spec_evr(),
    {
        proof {
            reveal_strlit(":");
            reveal_strlit("-");
        }
        let mut s = String::new();
        match self.epoch {
            Some(e) => {
                let d = epoch_string(e);
                s.append(d.as_str());
                s.append(":");
            },
            None => {},
        }
        s.append(self.version.as_str());
        s.append("-");
        s.append(self.release.as_str());
        proof {
            assert(s@ =~= self.spec_evr());
        }
        s
    }

    /// The NEVR rendering: `name-evr`.
    pub open spec fn spec_nevr(self) -> Seq<char> {
        self.spec_name() + seq!['-'] + self.spec_evr()
    }

    /// NEVR (name, epoch, version, release) of this element's package.
    pub fn nevr(&self) -> (s: String)
        ensures
            s@ == self.spec_nevr(),
    {
        proof {
            reveal_strlit("-");
        }
        let mut s = String::new();
        s.append(self.name.as_str());
        s.append("-");
        let evr = self.evr();
        s.append(evr.as_str());
        proof {
            assert(s@ =~= self.spec_nevr());
        }
        s
    }

    /// The NEVRA rendering: `name-evr.arch`, the arch part present only
    /// when known.
    pub open spec fn spec_nevra(self) -> Seq<char> {
        match self.spec_arch() {
            Some(a) => self.spec_nevr() + seq!['.'] + a,
            None => self.spec_nevr(),
        }
    }

    /// NEVRA (name, epoch, version, release, arch) of this element's
    /// package.
    pub fn nevra(&self) -> (s: String)
        ensures
            s@ == self.spec_nevra(),
    {
        proof {
            reveal_strlit(".");
        }
        let mut s = self.nevr();
        match &self.arch {
            Some(a) => {
                s.append(".");
                s.append(a.as_str());
            },
            None => {},
        }
        proof {
            assert(s@ =~= self.spec_nevra());
        }
        s
    }
}

/// Render an epoch in decimal.
fn epoch_string(e: i32) -> (s: String)
    ensures
        s@ == int_str(e as int),
{
    crate::package::i32_string(e)
}

/// The empty borrowed string.
fn empty_str() -> (s: &'static str)
    ensures
        s@ == Seq::<char>::empty(),
{
    proof {
        reveal_strlit("");
    }
    let s = "";
    proof {
        assert(s@ =~= Seq::<char>::empty());
    }
    s
}

} // verus!
