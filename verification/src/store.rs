//! A verified model of the content-addressed, append-only record store that
//! the library runs against.
//!
//! Records are immutable once written and are identified by a content-derived
//! address: committing the same value twice yields the same address. Deleting
//! a record only marks it dead for lookups; its address and value stay, so
//! later commits of the same content still resolve to the same, dead address.
//! Directed, typed links between addresses form the graph that the
//! versioning protocol maintains. Adding a link is idempotent — a link is
//! itself content-addressed — and removing one removes every copy of it;
//! links whose endpoints no longer resolve simply dangle.

use vstd::prelude::*;

use crate::content::entry::Content;
use crate::content::entry::ContentV;
use crate::course::anchor::CourseAnchor;
use crate::course::anchor::CourseAnchorV;
use crate::course::catalog_anchor::CourseCatalogAnchor;
use crate::course::entry::Course;
use crate::course::entry::CourseV;
use crate::helper::addresses_eq;
use crate::section::anchor::SectionAnchor;
use crate::section::anchor::SectionAnchorV;
use crate::section::entry::Section;
use crate::section::entry::SectionV;

verus! {

/// The address of a record or of an agent. Record addresses are derived from
/// record content by the store; agent addresses are opaque, externally
/// supplied values.
#[derive(Clone, Copy, Debug, Hash, PartialEq, Eq, Structural)]
pub struct Address(pub u64);

/// The type of a link between two addresses.
#[derive(Clone, Copy, Debug, PartialEq, Eq, Structural)]
pub enum LinkKind {
    /// Course anchor to the current course record.
    AnchorToCourse,
    /// Catalog anchor to a course anchor; one per course ever created.
    CatalogToCourse,
    /// Teacher agent to a course anchor they teach.
    TeacherToCourse,
    /// Student agent to a course anchor they enrolled in.
    StudentToCourse,
    /// Course anchor to an enrolled student agent.
    CourseToStudent,
    /// Course anchor to a section anchor it contains.
    CourseToSection,
    /// Section anchor to the current section record.
    AnchorToSection,
    /// Section anchor to a content record it contains.
    SectionToContent,
}

/// A directed, typed link from one address to another.
#[derive(Clone, Copy, Debug, PartialEq, Eq, Structural)]
pub struct Link {
    pub base: Address,
    pub target: Address,
    pub kind: LinkKind,
}

/// A record of any of the kinds the library stores.
#[derive(Debug, PartialEq)]
pub enum Record {
    Catalog(CourseCatalogAnchor),
    CourseAnchor(CourseAnchor),
    Course(Course),
    SectionAnchor(SectionAnchor),
    Section(Section),
    Content(Content),
}

/// The mathematical value of a `Record`.
#[verifier::ext_equal]
pub enum RecordV {
    Catalog,
    CourseAnchor(CourseAnchorV),
    Course(CourseV),
    SectionAnchor(SectionAnchorV),
    Section(SectionV),
    Content(ContentV),
}

impl View for Record {
    type V = RecordV;

    open spec fn view(&self) -> RecordV {
        match self {
            Record::Catalog(_) => RecordV::Catalog,
            Record::CourseAnchor(a) => RecordV::CourseAnchor(a@),
            Record::Course(c) => RecordV::Course(c@),
            Record::SectionAnchor(a) => RecordV::SectionAnchor(a@),
            Record::Section(s) => RecordV::Section(s@),
            Record::Content(c) => RecordV::Content(c@),
        }
    }
}

impl Clone for Record {
    fn clone(&self) -> (r: Self)
        ensures
            r@ == self@,
    {
        match self {
            Record::Catalog(c) => Record::Catalog(*c),
            Record::CourseAnchor(a) => Record::CourseAnchor(a.clone()),
            Record::Course(c) => Record::Course(c.clone()),
            Record::SectionAnchor(a) => Record::SectionAnchor(a.clone()),
            Record::Section(s) => Record::Section(s.clone()),
            Record::Content(c) => Record::Content(c.clone()),
        }
    }
}

/// Decides whether two records hold the same content, and therefore the same
/// address in the store.
pub fn record_eq(a: &Record, b: &Record) -> (r: bool)
    ensures
        r == (a@ == b@),
{
    match (a, b) {
        (Record::Catalog(_), Record::Catalog(_)) => true,
        (Record::CourseAnchor(x), Record::CourseAnchor(y)) => x.title == y.title
            && x.teacher_address == y.teacher_address && x.timestamp == y.timestamp,
        (Record::Course(x), Record::Course(y)) => x.title == y.title
            && addresses_eq(&x.sections, &y.sections) && x.teacher_address == y.teacher_address
            && x.timestamp == y.timestamp && x.anchor_address == y.anchor_address,
        (Record::SectionAnchor(x), Record::SectionAnchor(y)) => x.title == y.title
            && x.course_address == y.course_address && x.timestamp == y.timestamp
            && x.teacher_address == y.teacher_address,
        (Record::Section(x), Record::Section(y)) => x.title == y.title
            && x.course_address == y.course_address && x.timestamp == y.timestamp
            && x.anchor_address == y.anchor_address && x.teacher_address == y.teacher_address,
        (Record::Content(x), Record::Content(y)) => x.name == y.name && x.url == y.url
            && x.description == y.description && x.timestamp == y.timestamp
            && x.section_anchor_address == y.section_anchor_address
            && x.teacher_address == y.teacher_address,
        _ => false,
    }
}

/// One cell of the store: a committed record and whether it still resolves.
#[derive(Debug)]
pub struct Slot {
    pub value: Record,
    pub alive: bool,
}

/// The mathematical value of a `Slot`.
#[verifier::ext_equal]
pub struct SlotV {
    pub value: RecordV,
    pub alive: bool,
}

impl View for Slot {
    type V = SlotV;

    open spec fn view(&self) -> SlotV {
        SlotV { value: self.value@, alive: self.alive }
    }
}

/// The index of the first slot holding the value `v`, if any.
pub open spec fn find_slot(slots: Seq<SlotV>, v: RecordV) -> Option<int>
    decreases slots.len(),
{
    if slots.len() == 0 {
        None
    } else if slots.first().value == v {
        Some(0)
    } else {
        match find_slot(slots.drop_first(), v) {
            Some(i) => Some(i + 1),
            None => None,
        }
    }
}

/// `find_slot` returns the first index whose slot holds `v`, and `None`
/// exactly when no slot does.
pub proof fn lemma_find_slot(slots: Seq<SlotV>, v: RecordV)
    ensures
        match find_slot(slots, v) {
            Some(i) => 0 <= i < slots.len() && slots[i].value == v && (forall|j: int|
                0 <= j < i ==> slots[j].value != v),
            None => forall|j: int| 0 <= j < slots.len() ==> slots[j].value != v,
        },
    decreases slots.len(),
{
    if slots.len() != 0 && slots.first().value != v {
        lemma_find_slot(slots.drop_first(), v);
        assert(forall|j: int| 1 <= j < slots.len() ==> slots[j] == slots.drop_first()[j - 1]);
    }
}

/// The targets of the links with the given base and kind, in the order the
/// links stand in the store.
pub open spec fn targets_of(links: Seq<Link>, base: Address, kind: LinkKind) -> Seq<Address>
    decreases links.len(),
{
    if links.len() == 0 {
        Seq::empty()
    } else {
        let prefix = targets_of(links.drop_last(), base, kind);
        if links.last().base == base && links.last().kind == kind {
            prefix.push(links.last().target)
        } else {
            prefix
        }
    }
}

/// The links with every copy of `l` removed, in their original order.
pub open spec fn without_link(links: Seq<Link>, l: Link) -> Seq<Link>
    decreases links.len(),
{
    if links.len() == 0 {
        Seq::empty()
    } else {
        let prefix = without_link(links.drop_last(), l);
        if links.last() == l {
            prefix
        } else {
            prefix.push(links.last())
        }
    }
}

/// The sequence with every copy of the address `t` removed.
pub open spec fn without_address(addrs: Seq<Address>, t: Address) -> Seq<Address>
    decreases addrs.len(),
{
    if addrs.len() == 0 {
        Seq::empty()
    } else {
        let prefix = without_address(addrs.drop_last(), t);
        if addrs.last() == t {
            prefix
        } else {
            prefix.push(addrs.last())
        }
    }
}

/// Removing the links equal to `l` removes exactly the copies of `l.target`
/// from the targets at `(l.base, l.kind)` and leaves every other target list
/// unchanged.
pub proof fn lemma_targets_without(links: Seq<Link>, l: Link, base: Address, kind: LinkKind)
    ensures
        l.base == base && l.kind == kind ==> targets_of(without_link(links, l), base, kind)
            =~= without_address(targets_of(links, base, kind), l.target),
        l.base != base || l.kind != kind ==> targets_of(without_link(links, l), base, kind)
            =~= targets_of(links, base, kind),
    decreases links.len(),
{
    if links.len() != 0 {
        let p = links.drop_last();
        let m = links.last();
        lemma_targets_without(p, l, base, kind);
        assert(without_link(p, l).push(m).drop_last() =~= without_link(p, l));
        assert(targets_of(p, base, kind).push(m.target).drop_last() =~= targets_of(
            p,
            base,
            kind,
        ));
        assert(targets_of(without_link(p, l), base, kind).push(m.target).drop_last()
            =~= targets_of(without_link(p, l), base, kind));
    }
}

/// How adding one link changes one target list: a fresh matching link
/// appends its target, everything else leaves the list as it was.
pub proof fn lemma_targets_add_link(s: StoreV, l: Link, base: Address, kind: LinkKind)
    ensures
        (l.base != base || l.kind != kind) ==> s.add_link(l).link_targets(base, kind)
            == s.link_targets(base, kind),
        (l.base == base && l.kind == kind && !s.links.contains(l)) ==> s.add_link(l).link_targets(
            base,
            kind,
        ) == s.link_targets(base, kind).push(l.target),
        (l.base == base && l.kind == kind && s.links.contains(l)) ==> s.add_link(l).link_targets(
            base,
            kind,
        ) == s.link_targets(base, kind),
{
    if !s.links.contains(l) {
        assert(s.links.push(l).drop_last() =~= s.links);
    }
}

/// A link that is in the store contributes its target to the target list
/// of its base and kind.
pub proof fn lemma_contains_target(links: Seq<Link>, l: Link)
    requires
        links.contains(l),
    ensures
        targets_of(links, l.base, l.kind).contains(l.target),
    decreases links.len(),
{
    if links.len() != 0 {
        let p = links.drop_last();
        if links.last() == l {
            assert(targets_of(links, l.base, l.kind).last() == l.target);
        } else {
            let i = choose|i: int| 0 <= i < links.len() && links[i] == l;
            assert(p[i] == l);
            lemma_contains_target(p, l);
            let ts = targets_of(p, l.base, l.kind);
            let j = choose|j: int| 0 <= j < ts.len() && ts[j] == l.target;
            if links.last().base == l.base && links.last().kind == l.kind {
                assert(targets_of(links, l.base, l.kind)[j] == l.target);
            } else {
                assert(targets_of(links, l.base, l.kind)[j] == l.target);
            }
        }
    }
}

/// Two slot sequences holding the same record values — dead or alive — are
/// searched identically.
pub proof fn lemma_find_slot_same_values(slots1: Seq<SlotV>, slots2: Seq<SlotV>, v: RecordV)
    requires
        slots1.len() == slots2.len(),
        forall|j: int| 0 <= j < slots1.len() ==> slots1[j].value == slots2[j].value,
    ensures
        find_slot(slots1, v) == find_slot(slots2, v),
{
    lemma_find_slot(slots1, v);
    lemma_find_slot(slots2, v);
    match find_slot(slots1, v) {
        Some(i) => {
            assert(slots2[i].value == v);
            assert(find_slot(slots2, v) is Some);
        },
        None => {
            if find_slot(slots2, v) is Some {
                let k = find_slot(slots2, v).unwrap();
                assert(slots1[k].value == v);
            }
        },
    }
}

/// The mathematical value of a `Store`.
#[verifier::ext_equal]
pub struct StoreV {
    pub slots: Seq<SlotV>,
    pub links: Seq<Link>,
}

impl StoreV {
    /// The empty store.
    pub open spec fn init() -> StoreV {
        StoreV { slots: Seq::empty(), links: Seq::empty() }
    }

    /// The address of the slot with index `i`. Slot addresses start at 1, so
    /// the address 0 never resolves.
    pub open spec fn addr_of(i: int) -> Address {
        Address((i + 1) as u64)
    }

    /// Whether `a` is the address of a committed record, dead or alive.
    pub open spec fn is_record_addr(self, a: Address) -> bool {
        1 <= a.0 <= self.slots.len()
    }

    /// The slot holding the record at `a`.
    pub open spec fn slot_at(self, a: Address) -> SlotV {
        self.slots[a.0 - 1]
    }

    /// The record that `a` resolves to: none once the record is removed.
    pub open spec fn get(self, a: Address) -> Option<RecordV> {
        if self.is_record_addr(a) && self.slot_at(a).alive {
            Some(self.slot_at(a).value)
        } else {
            None
        }
    }

    /// The address of the record with content `v`, if committed.
    pub open spec fn find(self, v: RecordV) -> Option<Address> {
        match find_slot(self.slots, v) {
            Some(i) => Some(StoreV::addr_of(i)),
            None => None,
        }
    }

    /// The address committing `v` yields: the existing one if the content is
    /// already there, a fresh one otherwise.
    pub open spec fn put_addr(self, v: RecordV) -> Address {
        match self.find(v) {
            Some(a) => a,
            None => StoreV::addr_of(self.slots.len() as int),
        }
    }

    /// The store after committing `v`.
    pub open spec fn put(self, v: RecordV) -> StoreV {
        if self.find(v) is Some {
            self
        } else {
            StoreV { slots: self.slots.push(SlotV { value: v, alive: true }), links: self.links }
        }
    }

    /// The store after removing the record at `a`: the record stops
    /// resolving, but its slot, its value and every link stay.
    pub open spec fn remove(self, a: Address) -> StoreV {
        if self.get(a) is Some {
            StoreV {
                slots: self.slots.update(
                    a.0 - 1,
                    SlotV { value: self.slot_at(a).value, alive: false },
                ),
                links: self.links,
            }
        } else {
            self
        }
    }

    /// The store after adding the link `l`; a second copy of a link is never
    /// added.
    pub open spec fn add_link(self, l: Link) -> StoreV {
        if self.links.contains(l) {
            self
        } else {
            StoreV { slots: self.slots, links: self.links.push(l) }
        }
    }

    /// The store after removing every copy of the link `l`.
    pub open spec fn remove_link(self, l: Link) -> StoreV {
        StoreV { slots: self.slots, links: without_link(self.links, l) }
    }

    /// The targets of the live links with the given base and kind.
    pub open spec fn link_targets(self, base: Address, kind: LinkKind) -> Seq<Address> {
        targets_of(self.links, base, kind)
    }
}

/// Room for `n` more records: the machine-level bound that keeps every
/// address exact.
pub open spec fn has_room(s: StoreV, n: nat) -> bool {
    s.slots.len() + n <= u64::MAX
}

/// A record that is not in the store is still not in it after a different
/// record is committed.
pub proof fn lemma_put_fresh(s: StoreV, v: RecordV, w: RecordV)
    requires
        s.find(w) is None,
        v != w,
    ensures
        s.put(v).find(w) is None,
{
    lemma_find_slot(s.slots, w);
    lemma_find_slot(s.put(v).slots, w);
    if s.put(v).find(w) is Some {
        let k = find_slot(s.put(v).slots, w).unwrap();
        assert(s.put(v).slots[k].value == w);
    }
}

/// A record that is in the store keeps its address when anything else is
/// committed: content addresses are stable.
pub proof fn lemma_find_stable(s: StoreV, v: RecordV, w: RecordV)
    requires
        s.find(w) is Some,
    ensures
        s.put(v).find(w) == s.find(w),
{
    lemma_find_slot(s.slots, w);
    lemma_find_slot(s.put(v).slots, w);
    let i = find_slot(s.slots, w).unwrap();
    assert(s.put(v).slots[i].value == w);
    if s.put(v).find(w) is Some {
        let k = find_slot(s.put(v).slots, w).unwrap();
        if k < i {
            assert(s.slots[k].value == w);
        }
    }
}

/// Committing a record does not touch what other addresses resolve to, and
/// makes a fresh record resolve at the address it returns.
pub proof fn lemma_put_get(s: StoreV, v: RecordV)
    requires
        s.slots.len() < u64::MAX,
    ensures
        forall|a: Address| s.is_record_addr(a) ==> #[trigger] s.put(v).get(a) == s.get(a),
        s.find(v) is None ==> s.put(v).get(s.put_addr(v)) == Some(v),
{
    lemma_find_slot(s.slots, v);
}

/// The content-addressed record store, modelled in memory: records in
/// commit order, and the live links between addresses.
#[derive(Debug)]
pub struct Store {
    pub slots: Vec<Slot>,
    pub links: Vec<Link>,
}

impl View for Store {
    type V = StoreV;

    open spec fn view(&self) -> StoreV {
        StoreV { slots: self.slots@.map_values(|s: Slot| s@), links: self.links@ }
    }
}

impl Store {
    /// Creates an empty store.
    pub fn new() -> (s: Store)
        ensures
            s@ == StoreV::init(),
    {
        let s = Store { slots: Vec::new(), links: Vec::new() };
        proof {
            assert(s@ =~= StoreV::init());
        }
        s
    }

    /// Commits a record and returns its content-derived address. Committing
    /// content that is already in the store returns the existing address and
    /// changes nothing — in particular, it does not revive a removed record.
    pub fn put(&mut self, r: Record) -> (a: Address)
        requires
            old(self)@.slots.len() < u64::MAX,
        ensures
            final(self)@ == old(self)@.put(r@),
            a == old(self)@.put_addr(r@),
    {
        let mut i: usize = 0;
        while i < self.slots.len()
            invariant
                i <= self.slots.len(),
                *self == *old(self),
                forall|j: int| 0 <= j < i ==> self@.slots[j].value != r@,
            decreases self.slots.len() - i,
        {
            if record_eq(&self.slots[i].value, &r) {
                proof {
                    lemma_find_slot(self@.slots, r@);
                    assert(self@.slots[i as int].value == r@);
                    assert(find_slot(self@.slots, r@) == Some(i as int));
                }
                return Address(i as u64 + 1);
            }
            i = i + 1;
        }
        proof {
            lemma_find_slot(self@.slots, r@);
            assert(find_slot(self@.slots, r@) is None);
        }
        let fresh = Address(self.slots.len() as u64 + 1);
        self.slots.push(Slot { value: r, alive: true });
        proof {
            assert(final(self)@.slots =~= old(self)@.slots.push(
                SlotV { value: r@, alive: true },
            ));
            assert(final(self)@ =~= old(self)@.put(r@));
        }
        fresh
    }

    /// Looks the address of a record up by its content, whether or not the
    /// record still resolves.
    pub fn find_addr(&self, r: &Record) -> (a: Option<Address>)
        ensures
            a == self@.find(r@),
    {
        let mut i: usize = 0;
        while i < self.slots.len()
            invariant
                i <= self.slots.len(),
                forall|j: int| 0 <= j < i ==> self@.slots[j].value != r@,
            decreases self.slots.len() - i,
        {
            if record_eq(&self.slots[i].value, r) {
                proof {
                    lemma_find_slot(self@.slots, r@);
                    assert(self@.slots[i as int].value == r@);
                    assert(find_slot(self@.slots, r@) == Some(i as int));
                }
                return Some(Address(i as u64 + 1));
            }
            i = i + 1;
        }
        proof {
            lemma_find_slot(self@.slots, r@);
        }
        None
    }

    /// Looks a record up by address; a removed record no longer resolves.
    pub fn get(&self, a: Address) -> (r: Option<&Record>)
        ensures
            match r {
                Some(rec) => self@.get(a) == Some(rec@),
                None => self@.get(a) is None,
            },
    {
        if 1 <= a.0 && a.0 <= self.slots.len() as u64 {
            let i = (a.0 - 1) as usize;
            let slot = &self.slots[i];
            if slot.alive {
                Some(&slot.value)
            } else {
                None
            }
        } else {
            None
        }
    }

    /// Removes the record at `a`: it stops resolving, but its slot, its
    /// value and every link stay. Returns whether a record resolved at `a`.
    pub fn remove_entry(&mut self, a: Address) -> (ok: bool)
        ensures
            final(self)@ == old(self)@.remove(a),
            ok == (old(self)@.get(a) is Some),
    {
        if 1 <= a.0 && a.0 <= self.slots.len() as u64 {
            let i = (a.0 - 1) as usize;
            if self.slots[i].alive {
                let value = self.slots[i].value.clone();
                self.slots[i] = Slot { value, alive: false };
                proof {
                    assert(final(self)@.slots =~= old(self)@.remove(a).slots);
                    assert(final(self)@ =~= old(self)@.remove(a));
                }
                true
            } else {
                false
            }
        } else {
            false
        }
    }

    /// Adds a link; adding a link that is already there changes nothing.
    pub fn put_link(&mut self, base: Address, target: Address, kind: LinkKind)
        ensures
            final(self)@ == old(self)@.add_link(Link { base, target, kind }),
    {
        let l = Link { base, target, kind };
        let mut found = false;
        let mut i: usize = 0;
        while i < self.links.len()
            invariant
                i <= self.links.len(),
                *self == *old(self),
                found ==> self@.links.contains(l),
                !found ==> forall|j: int| 0 <= j < i ==> self@.links[j] != l,
            decreases self.links.len() - i,
        {
            if self.links[i] == l {
                found = true;
            }
            i = i + 1;
        }
        if !found {
            assert(!old(self)@.links.contains(l));
            self.links.push(l);
            proof {
                assert(final(self)@ =~= old(self)@.add_link(l));
            }
        }
    }

    /// Removes every copy of the given link; removing an absent link changes
    /// nothing.
    pub fn remove_link(&mut self, base: Address, target: Address, kind: LinkKind)
        ensures
            final(self)@ == old(self)@.remove_link(Link { base, target, kind }),
    {
        let l = Link { base, target, kind };
        let mut kept: Vec<Link> = Vec::new();
        let mut i: usize = 0;
        while i < self.links.len()
            invariant
                i <= self.links.len(),
                self.slots == old(self).slots,
                self.links == old(self).links,
                kept@ == without_link(self@.links.take(i as int), l),
            decreases self.links.len() - i,
        {
            let m = self.links[i];
            proof {
                assert(self@.links.take(i + 1).drop_last() =~= self@.links.take(i as int));
                assert(self@.links.take(i + 1).last() == m);
            }
            if m != l {
                kept.push(m);
            }
            i = i + 1;
        }
        proof {
            assert(self@.links.take(self.links@.len() as int) =~= self@.links);
        }
        self.links = kept;
        proof {
            assert(final(self)@ =~= old(self)@.remove_link(l));
        }
    }

    /// Returns the targets of the links with the given base and kind, in the
    /// order the links were added.
    pub fn get_links(&self, base: Address, kind: LinkKind) -> (v: Vec<Address>)
        ensures
            v@ == self@.link_targets(base, kind),
    {
        let mut v: Vec<Address> = Vec::new();
        let mut i: usize = 0;
        while i < self.links.len()
            invariant
                i <= self.links.len(),
                v@ == targets_of(self@.links.take(i as int), base, kind),
            decreases self.links.len() - i,
        {
            let m = self.links[i];
            proof {
                assert(self@.links.take(i + 1).drop_last() =~= self@.links.take(i as int));
                assert(self@.links.take(i + 1).last() == m);
            }
            if m.base == base && m.kind == kind {
                v.push(m.target);
            }
            i = i + 1;
        }
        proof {
            assert(self@.links.take(self.links@.len() as int) =~= self@.links);
        }
        v
    }
}

} // verus!
