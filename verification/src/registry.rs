//! The cache of table-backed descriptors.
//!
//! The cache does not keep a descriptor alive. It counts the holders of each
//! descriptor it has handed out; a holder gives its handle back with
//! [`SourceTable::release`]. An entry without holders is dead: a lookup misses
//! it, and the next insertion sweeps it out.

use std::collections::HashMap;
use std::sync::Arc;
use vstd::prelude::*;
use vstd::seq_lib::lemma_seq_contains_after_push;
use crate::catalog::TableId;
use crate::desc::{table_source_desc, SourceDesc, SourceDescView};
use crate::error::{SourceError, SourceErrorView};
use crate::sync::share;
use crate::wire::TableSourceInfo;

verus! {

broadcast use vstd::std_specs::hash::group_hash_axioms;

/// The cache entry that a handle was taken from: the table id and the number of
/// the descriptor that was built for it. Two handles with equal leases denote
/// one descriptor.
#[derive(Clone, Copy, Debug, PartialEq, Eq, Structural)]
pub struct Lease {
    pub table_id: TableId,
    pub instance: u64,
}

/// A holder's handle on a descriptor. One that came out of the cache carries a
/// lease and counts as a holder until it is released; one that was built for a
/// connector source carries none and owns its descriptor alone.
#[derive(Debug)]
pub struct SourceDescRef<M, C, P> {
    desc: Arc<SourceDesc<M, C, P>>,
    lease: Option<Lease>,
}

/// The mathematical model of a [`SourceDescRef`].
pub struct SourceDescRefView<M, C, P> {
    pub desc: SourceDescView<M, C, P>,
    pub lease: Option<Lease>,
}

impl<M, C, P> View for SourceDescRef<M, C, P> {
    type V = SourceDescRefView<M, C, P>;

    closed spec fn view(&self) -> SourceDescRefView<M, C, P> {
        SourceDescRefView { desc: self.desc@, lease: self.lease }
    }
}

impl<M, C, P> SourceDescRef<M, C, P> {
    /// A handle with a lease holds a table-backed descriptor, and one without
    /// holds a connector-backed one.
    #[verifier::type_invariant]
    spec fn inv(self) -> bool {
        match self.lease {
            Some(_) => self.desc@.is_table_backed(),
            None => self.desc@.is_connector_backed(),
        }
    }

    /// A handle on a descriptor of a connector source, which no cache knows of.
    pub(crate) fn detached(desc: SourceDesc<M, C, P>) -> (r: Self)
        requires
            desc@.is_connector_backed(),
        ensures
            r@ == (SourceDescRefView { desc: desc@, lease: None }),
    {
        SourceDescRef { desc: Arc::new(desc), lease: None }
    }

    /// The descriptor. It is well formed: table-backed if the handle has a
    /// lease, and connector-backed if it has none.
    pub fn desc(&self) -> (r: &SourceDesc<M, C, P>)
        ensures
            r@ == self@.desc,
            r@.wf(),
            self@.lease is Some ==> r@.is_table_backed(),
            self@.lease is None ==> r@.is_connector_backed(),
    {
        proof {
            use_type_invariant(self);
        }
        &*self.desc
    }

    /// The cache entry this handle was taken from, if any.
    pub fn lease(&self) -> (r: Option<Lease>)
        ensures
            r == self@.lease,
    {
        self.lease
    }

    /// The table id under which the descriptor is cached, if it is.
    pub fn table_id(&self) -> (r: Option<TableId>)
        ensures
            r == match self@.lease {
                Some(l) => Some(l.table_id),
                None => None,
            },
    {
        match self.lease {
            Some(l) => Some(l.table_id),
            None => None,
        }
    }

    /// Whether both handles came out of one cache entry, and so denote the
    /// same descriptor. A handle without a lease shares its descriptor with no
    /// other.
    pub fn same_instance(&self, other: &Self) -> (r: bool)
        ensures
            r == (self@.lease is Some && self@.lease == other@.lease),
    {
        match (self.lease, other.lease) {
            (Some(a), Some(b)) => a.table_id.table_id == b.table_id.table_id && a.instance
                == b.instance,
            _ => false,
        }
    }
}

/// The model of a [`Result`] that holds a handle or an error.
pub open spec fn outcome_view<M, C, P>(r: Result<SourceDescRef<M, C, P>, SourceError>) -> Result<
    SourceDescRefView<M, C, P>,
    SourceErrorView,
> {
    match r {
        Ok(h) => Ok(h@),
        Err(e) => Err(e@),
    }
}

/// A descriptor that has holders, and how many.
pub struct LiveView<M, C, P> {
    pub desc: SourceDescView<M, C, P>,
    pub holders: nat,
}

/// One cache entry: the number of the descriptor that was built for it, and
/// the descriptor while it has holders.
pub struct SlotView<M, C, P> {
    pub instance: u64,
    pub live: Option<LiveView<M, C, P>>,
}

/// The mathematical model of a [`SourceTable`]: its entries by table id, and
/// the number that the next descriptor will get.
pub struct SourceTableView<M, C, P> {
    pub slots: Map<u32, SlotView<M, C, P>>,
    pub next_instance: u64,
}

/// The count at which the holders of an entry are no longer told apart. An
/// entry that reaches it stays live for good.
pub open spec fn max_holders() -> nat {
    u64::MAX as nat
}

/// The message of the error for a cache that has numbered `u64::MAX`
/// descriptors.
pub open spec fn exhausted_message() -> Seq<char> {
    "source instance numbers are exhausted"@
}

impl<M, C, P> SourceTableView<M, C, P> {
    /// Every entry was numbered before the next descriptor will be, and every
    /// live entry has at least one holder and a table-backed descriptor.
    pub open spec fn wf(self) -> bool {
        &&& self.slots.dom().finite()
        &&& forall|id: u32| #[trigger]
            self.slots.contains_key(id) ==> {
                &&& self.slots[id].instance < self.next_instance
                &&& self.slots[id].live matches Some(l) ==> 1 <= l.holders <= max_holders()
                    && l.desc.is_table_backed()
            }
    }

    /// Whether `id` has an entry whose descriptor is held.
    pub open spec fn is_live(self, id: u32) -> bool {
        self.slots.contains_key(id) && self.slots[id].live is Some
    }

    /// The number of holders of the descriptor of `id`: zero if there is no
    /// entry or the entry is dead.
    pub open spec fn holders(self, id: u32) -> nat {
        if self.is_live(id) {
            self.slots[id].live->0.holders
        } else {
            0
        }
    }

    /// The table ids whose descriptors are held.
    pub open spec fn live_ids(self) -> Set<u32> {
        self.slots.dom().filter(|id: u32| self.slots[id].live is Some)
    }

    /// The number of entries, dead ones included.
    pub open spec fn len(self) -> nat {
        self.slots.dom().len()
    }

    /// The cache without its dead entries.
    pub open spec fn swept(self) -> Self {
        SourceTableView { slots: self.slots.restrict(self.live_ids()), ..self }
    }

    /// The handle that a hit on the live entry `id` returns.
    pub open spec fn handle(self, id: u32) -> SourceDescRefView<M, C, P> {
        SourceDescRefView {
            desc: self.slots[id].live->0.desc,
            lease: Some(Lease { table_id: TableId { table_id: id }, instance: self.slots[id].instance }),
        }
    }

    /// The cache after one more holder took the live entry `id`.
    pub open spec fn shared(self, id: u32) -> Self {
        let slot = self.slots[id];
        let live = slot.live->0;
        let holders = if live.holders >= max_holders() {
            live.holders
        } else {
            live.holders + 1
        };
        SourceTableView {
            slots: self.slots.insert(
                id,
                SlotView { live: Some(LiveView { holders: holders as nat, ..live }), ..slot },
            ),
            ..self
        }
    }

    /// A lookup: a hit on a live entry adds a holder and returns its handle;
    /// anything else is a miss and changes nothing.
    pub open spec fn get_source(self, id: u32) -> (Self, Result<SourceDescRefView<M, C, P>, SourceErrorView>) {
        if self.is_live(id) {
            (self.shared(id), Ok(self.handle(id)))
        } else {
            (self, Err(SourceErrorView::NotFound(TableId { table_id: id })))
        }
    }

    /// An insertion: the dead entries are swept; then a live entry under `id`
    /// is a hit, and otherwise `desc` is cached under `id` with one holder and
    /// the next number.
    pub open spec fn insert_source(self, id: u32, desc: SourceDescView<M, C, P>) -> (
        Self,
        Result<SourceDescRefView<M, C, P>, SourceErrorView>,
    ) {
        let s = self.swept();
        if s.is_live(id) {
            s.get_source(id)
        } else if s.next_instance == u64::MAX {
            (s, Err(SourceErrorView::InternalError(exhausted_message())))
        } else {
            let instance = s.next_instance;
            (
                SourceTableView {
                    slots: s.slots.insert(
                        id,
                        SlotView { instance, live: Some(LiveView { desc, holders: 1 }) },
                    ),
                    next_instance: (instance + 1) as u64,
                },
                Ok(
                    SourceDescRefView {
                        desc,
                        lease: Some(Lease { table_id: TableId { table_id: id }, instance }),
                    },
                ),
            )
        }
    }

    /// Whether `lease` names the descriptor that is live in this cache.
    pub open spec fn holds(self, lease: Lease) -> bool {
        self.is_live(lease.table_id.table_id) && self.slots[lease.table_id.table_id].instance
            == lease.instance
    }

    /// A release: the entry that the handle was taken from loses a holder, and
    /// dies with its last one. A handle without a lease, or one whose entry is
    /// gone or was rebuilt since, changes nothing; nor does one whose entry has
    /// `max_holders()` holders.
    pub open spec fn release(self, h: SourceDescRefView<M, C, P>) -> Self {
        match h.lease {
            Some(lease) if self.holds(lease) => {
                let id = lease.table_id.table_id;
                let slot = self.slots[id];
                let live = slot.live->0;
                if live.holders >= max_holders() {
                    self
                } else if live.holders <= 1 {
                    SourceTableView { slots: self.slots.insert(id, SlotView { live: None, ..slot }), ..self }
                } else {
                    SourceTableView {
                        slots: self.slots.insert(
                            id,
                            SlotView {
                                live: Some(LiveView { holders: (live.holders - 1) as nat, ..live }),
                                ..slot
                            },
                        ),
                        ..self
                    }
                }
            },
            _ => self,
        }
    }

    /// The cache without any entry. The numbering goes on, so that a handle from
    /// before never matches an entry from after.
    pub open spec fn clear_sources(self) -> Self {
        SourceTableView { slots: Map::empty(), ..self }
    }
}

#[derive(Debug)]
struct Live<M, C, P> {
    desc: Arc<SourceDesc<M, C, P>>,
    holders: u64,
}

#[derive(Debug)]
struct Slot<M, C, P> {
    instance: u64,
    live: Option<Live<M, C, P>>,
}

impl<M, C, P> View for Slot<M, C, P> {
    type V = SlotView<M, C, P>;

    closed spec fn view(&self) -> SlotView<M, C, P> {
        SlotView {
            instance: self.instance,
            live: match self.live {
                Some(l) => Some(LiveView { desc: l.desc@, holders: l.holders as nat }),
                None => None,
            },
        }
    }
}

/// The cache of table-backed descriptors, by table id.
#[derive(Debug)]
pub struct SourceTable<M, C, P> {
    slots: HashMap<u32, Slot<M, C, P>>,
    next_instance: u64,
}

impl<M, C, P> View for SourceTable<M, C, P> {
    type V = SourceTableView<M, C, P>;

    closed spec fn view(&self) -> SourceTableView<M, C, P> {
        table_view(self.slots@, self.next_instance)
    }
}

/// The model of a cache with these entries and this next number.
spec fn table_view<M, C, P>(slots: Map<u32, Slot<M, C, P>>, next_instance: u64) -> SourceTableView<
    M,
    C,
    P,
> {
    SourceTableView {
        slots: Map::new(|id: u32| slots.contains_key(id), |id: u32| slots[id]@),
        next_instance,
    }
}

/// The model has an entry exactly where the cache has one.
proof fn lemma_table_view_dom<M, C, P>(slots: Map<u32, Slot<M, C, P>>, next_instance: u64)
    ensures
        table_view(slots, next_instance).slots.dom() == slots.dom(),
{
}

/// What well-formedness of the model asks of the entries themselves.
spec fn slots_ok<M, C, P>(slots: Map<u32, Slot<M, C, P>>, next_instance: u64) -> bool {
    &&& slots.dom().finite()
    &&& forall|id: u32| #[trigger]
        slots.contains_key(id) ==> {
            &&& slots[id].instance < next_instance
            &&& slots[id].live matches Some(l) ==> l.holders >= 1 && l.desc@.is_table_backed()
        }
}

proof fn lemma_slots_ok<M, C, P>(slots: Map<u32, Slot<M, C, P>>, next_instance: u64)
    ensures
        table_view(slots, next_instance).wf() <==> slots_ok(slots, next_instance),
{
    lemma_table_view_dom(slots, next_instance);
    let v = table_view(slots, next_instance);
    if slots_ok(slots, next_instance) {
        assert forall|id: u32| #[trigger] v.slots.contains_key(id) implies {
            &&& v.slots[id].instance < v.next_instance
            &&& v.slots[id].live matches Some(l) ==> 1 <= l.holders <= max_holders()
                && l.desc.is_table_backed()
        } by {
        }
    }
    if v.wf() {
        assert forall|id: u32| #[trigger] slots.contains_key(id) implies {
            &&& slots[id].instance < next_instance
            &&& slots[id].live matches Some(l) ==> l.holders >= 1 && l.desc@.is_table_backed()
        } by {
        }
    }
}

proof fn lemma_view_insert<M, C, P>(slots: Map<u32, Slot<M, C, P>>, next_instance: u64, id: u32, slot: Slot<M, C, P>)
    ensures
        table_view(slots.insert(id, slot), next_instance).slots == table_view(
            slots,
            next_instance,
        ).slots.insert(id, slot@),
{
}

/// The table ids of the dead entries, in the order in which the map yields them.
fn dead_ids<M, C, P>(slots: &HashMap<u32, Slot<M, C, P>>) -> (dead: Vec<u32>)
    ensures
        forall|id: u32| #[trigger]
            dead@.contains(id) <==> (slots@.contains_key(id) && slots@[id].live is None),
{
    let mut dead: Vec<u32> = Vec::new();
    let ghost mut seen: Set<u32> = Set::empty();
    for k in it: slots.keys()
        invariant
            forall|x: u32| #[trigger] dead@.contains(x) <==> (seen.contains(x) && slots@[x].live is None),
            forall|x: u32| #[trigger] seen.contains(x) ==> slots@.contains_key(x),
            forall|j: int| 0 <= j < it.index() ==> seen.contains(*(#[trigger] it.seq()[j])),
            forall|x: u32| #[trigger]
                slots@.contains_key(x) ==> exists|j: int|
                    0 <= j < it.seq().len() && *(#[trigger] it.seq()[j]) == x,
    {
        let ghost before = dead@;
        proof {
            seen = seen.insert(*k);
        }
        match slots.get(k) {
            Some(slot) => {
                if slot.live.is_none() {
                    dead.push(*k);
                    assert forall|x: u32| #[trigger]
                        dead@.contains(x) <==> (seen.contains(x) && slots@[x].live is None) by {
                        lemma_seq_contains_after_push(before, *k, x);
                    }
                }
            },
            None => {},
        }
    }
    dead
}

impl<M, C, P> SourceTable<M, C, P> {
    #[verifier::type_invariant]
    spec fn inv(self) -> bool {
        self@.wf()
    }

    /// An empty cache.
    pub fn new() -> (r: Self)
        ensures
            r@ == (SourceTableView::<M, C, P> { slots: Map::empty(), next_instance: 0 }),
    {
        let slots: HashMap<u32, Slot<M, C, P>> = HashMap::new();
        proof {
            assert(table_view(slots@, 0).slots =~= Map::empty());
        }
        SourceTable { slots, next_instance: 0 }
    }

    /// The number of entries, dead ones included.
    pub fn len(&self) -> (r: usize)
        ensures
            r == self@.len(),
            self@.wf(),
    {
        proof {
            use_type_invariant(self);
            lemma_table_view_dom(self.slots@, self.next_instance);
        }
        self.slots.len()
    }

    /// Whether `id` has an entry whose descriptor is held.
    pub fn is_live(&self, source_id: &TableId) -> (r: bool)
        ensures
            r == self@.is_live(source_id.table_id),
    {
        match self.slots.get(&source_id.table_id) {
            Some(slot) => slot.live.is_some(),
            None => false,
        }
    }

    /// Moves the entries out, leaving none behind, so that they can be worked on
    /// one step at a time.
    fn take_slots(&mut self) -> (slots: HashMap<u32, Slot<M, C, P>>)
        ensures
            slots@ == old(self).slots@,
            slots_ok(slots@, old(self).next_instance),
            table_view(slots@, old(self).next_instance) == old(self)@,
            final(self).slots@ == Map::<u32, Slot<M, C, P>>::empty(),
            final(self).next_instance == old(self).next_instance,
    {
        proof {
            use_type_invariant(&*self);
            lemma_slots_ok(self.slots@, self.next_instance);
            lemma_slots_ok(Map::<u32, Slot<M, C, P>>::empty(), self.next_instance);
        }
        let mut slots: HashMap<u32, Slot<M, C, P>> = HashMap::new();
        std::mem::swap(&mut self.slots, &mut slots);
        slots
    }

    /// Puts worked-on entries in place.
    fn put_slots(&mut self, slots: HashMap<u32, Slot<M, C, P>>)
        requires
            slots_ok(slots@, old(self).next_instance),
        ensures
            final(self)@ == table_view(slots@, old(self).next_instance),
            final(self).slots@ == slots@,
            final(self).next_instance == old(self).next_instance,
            final(self)@.wf(),
    {
        proof {
            lemma_slots_ok(slots@, self.next_instance);
        }
        self.slots = slots;
    }

    /// The number of holders of the descriptor cached under `source_id`: zero
    /// if there is no entry or the entry is dead.
    pub fn holders(&self, source_id: &TableId) -> (r: u64)
        ensures
            r == self@.holders(source_id.table_id),
    {
        proof {
            use_type_invariant(self);
        }
        match self.slots.get(&source_id.table_id) {
            Some(slot) => match &slot.live {
                Some(live) => live.holders,
                None => 0,
            },
            None => 0,
        }
    }

    /// Drops every entry, live or dead. Handles that are still held stay
    /// valid, but no lookup finds their descriptors again.
    pub fn clear_sources(&mut self)
        ensures
            final(self)@ == old(self)@.clear_sources(),
            old(self)@.wf(),
            final(self)@.wf(),
    {
        proof {
            use_type_invariant(&*self);
        }
        let mut slots = self.take_slots();
        slots.clear();
        proof {
            assert(table_view(slots@, self.next_instance).slots =~= Map::empty());
        }
        self.put_slots(slots);
    }

    /// Looks up the descriptor cached under `source_id`. A hit adds a holder
    /// and returns a handle with the entry's lease; an absent or dead entry is
    /// a miss, reported as [`SourceError::NotFound`], and changes nothing.
    pub fn get_source(&mut self, source_id: &TableId) -> (r: Result<SourceDescRef<M, C, P>, SourceError>)
        ensures
            (final(self)@, outcome_view(r)) == old(self)@.get_source(source_id.table_id),
            old(self)@.wf(),
            final(self)@.wf(),
    {
        proof {
            use_type_invariant(&*self);
        }
        let id = source_id.table_id;
        if !self.is_live(source_id) {
            return Err(SourceError::NotFound(TableId { table_id: id }));
        }
        let mut slots = self.take_slots();
        let ghost before = slots@;
        let slot = slots.remove(&id).unwrap();
        let live = slot.live.unwrap();
        let holders = if live.holders == u64::MAX {
            live.holders
        } else {
            live.holders + 1
        };
        let handle = SourceDescRef {
            desc: share(&live.desc),
            lease: Some(Lease { table_id: TableId { table_id: id }, instance: slot.instance }),
        };
        let renewed = Slot { instance: slot.instance, live: Some(Live { desc: live.desc, holders }) };
        slots.insert(id, renewed);
        proof {
            assert(slots@ =~= before.insert(id, renewed));
            lemma_view_insert(before, self.next_instance, id, renewed);
        }
        self.put_slots(slots);
        Ok(handle)
    }

    /// Removes the dead entries.
    fn sweep(&mut self)
        ensures
            final(self)@ == old(self)@.swept(),
            final(self).next_instance == old(self).next_instance,
            old(self)@.wf(),
            final(self)@.wf(),
    {
        proof {
            use_type_invariant(&*self);
        }
        let mut slots = self.take_slots();
        let ghost before = slots@;
        let dead = dead_ids(&slots);
        let mut i: usize = 0;
        while i < dead.len()
            invariant
                i <= dead.len(),
                slots@.dom().finite(),
                forall|id: u32| #[trigger]
                    slots@.contains_key(id) <==> (before.contains_key(id) && !dead@.subrange(
                        0,
                        i as int,
                    ).contains(id)),
                forall|id: u32| #[trigger] slots@.contains_key(id) ==> slots@[id] == before[id],
            decreases dead.len() - i,
        {
            let ghost done = dead@.subrange(0, i as int);
            slots.remove(&dead[i]);
            proof {
                assert(dead@.subrange(0, i + 1) =~= done.push(dead@[i as int]));
                assert forall|id: u32| #[trigger]
                    slots@.contains_key(id) <==> (before.contains_key(id) && !dead@.subrange(
                        0,
                        i + 1,
                    ).contains(id)) by {
                    lemma_seq_contains_after_push(done, dead@[i as int], id);
                }
            }
            i = i + 1;
        }
        proof {
            assert(dead@.subrange(0, i as int) =~= dead@);
            let v = old(self)@;
            assert(table_view(slots@, self.next_instance).slots =~= v.slots.restrict(v.live_ids()));
        }
        self.put_slots(slots);
    }

    /// Caches a descriptor for the table source that `info` describes, unless
    /// one is live under `source_id` already. The dead entries are swept first.
    /// Then a live entry under `source_id` is a hit, as in
    /// [`SourceTable::get_source`], and `info` is not read; otherwise the
    /// descriptor is built, reporting to `metrics`, and cached with one holder.
    /// The only failure is a cache that has numbered `u64::MAX` descriptors.
    pub fn insert_source(&mut self, source_id: &TableId, info: &TableSourceInfo, metrics: Arc<M>) -> (r:
        Result<SourceDescRef<M, C, P>, SourceError>)
        ensures
            (final(self)@, outcome_view(r)) == old(self)@.insert_source(
                source_id.table_id,
                table_source_desc(info@, *metrics),
            ),
            old(self)@.wf(),
            final(self)@.wf(),
    {
        self.sweep();
        let id = source_id.table_id;
        if self.is_live(source_id) {
            return self.get_source(source_id);
        }
        if self.next_instance == u64::MAX {
            return Err(SourceError::InternalError("source instance numbers are exhausted".to_owned()));
        }
        let desc = Arc::new(SourceDesc::of_table(info, metrics));
        let instance = self.next_instance;
        let handle = SourceDescRef {
            desc: share(&desc),
            lease: Some(Lease { table_id: TableId { table_id: id }, instance }),
        };
        let mut slots = self.take_slots();
        let ghost before = slots@;
        let slot = Slot { instance, live: Some(Live { desc, holders: 1 }) };
        slots.insert(id, slot);
        proof {
            lemma_view_insert(before, (instance + 1) as u64, id, slot);
            lemma_slots_ok(Map::<u32, Slot<M, C, P>>::empty(), (instance + 1) as u64);
        }
        self.next_instance = instance + 1;
        self.put_slots(slots);
        Ok(handle)
    }

    /// Gives a handle back. The entry it was taken from loses a holder and
    /// dies with its last one; its descriptor is dropped then, and the entry
    /// stays until the next insertion sweeps it. A handle without a lease, or
    /// one whose entry is gone or was rebuilt since, changes nothing.
    pub fn release(&mut self, handle: SourceDescRef<M, C, P>)
        ensures
            final(self)@ == old(self)@.release(handle@),
            old(self)@.wf(),
            final(self)@.wf(),
    {
        proof {
            use_type_invariant(&*self);
        }
        let lease = match handle.lease {
            Some(lease) => lease,
            None => {
                return ;
            },
        };
        let id = lease.table_id.table_id;
        let holders = match self.slots.get(&id) {
            Some(slot) => match &slot.live {
                Some(live) => if slot.instance == lease.instance {
                    live.holders
                } else {
                    0
                },
                None => 0,
            },
            None => 0,
        };
        if holders == 0 || holders == u64::MAX {
            return ;
        }
        let mut slots = self.take_slots();
        let ghost before = slots@;
        let slot = slots.remove(&id).unwrap();
        let renewed = if holders == 1 {
            Slot { instance: slot.instance, live: None }
        } else {
            let live = slot.live.unwrap();
            Slot { instance: slot.instance, live: Some(Live { desc: live.desc, holders: holders - 1 }) }
        };
        slots.insert(id, renewed);
        proof {
            assert(slots@ =~= before.insert(id, renewed));
            lemma_view_insert(before, self.next_instance, id, renewed);
        }
        self.put_slots(slots);
    }

    /// Whether the cache has no entry at all.
    pub fn is_empty(&self) -> (r: bool)
        ensures
            r == (self@.len() == 0),
    {
        self.len() == 0
    }
}

/// A table id without an entry is not found, and the lookup leaves the cache
/// as it was. So is every id in a cache that nothing was inserted into.
pub proof fn lemma_absent_is_not_found<M, C, P>(s: SourceTableView<M, C, P>, id: u32)
    requires
        !s.slots.contains_key(id),
    ensures
        s.get_source(id) == (s, Err::<SourceDescRefView<M, C, P>, _>(SourceErrorView::NotFound(TableId { table_id: id }))),
{
}

/// Only an insertion adds an entry, and only under its own table id: a
/// lookup, a release and a reset add none.
pub proof fn lemma_only_insert_adds_entries<M, C, P>(
    s: SourceTableView<M, C, P>,
    id: u32,
    desc: SourceDescView<M, C, P>,
    h: SourceDescRefView<M, C, P>,
    other: u32,
)
    ensures
        s.get_source(id).0.slots.contains_key(other) ==> s.slots.contains_key(other),
        s.release(h).slots.contains_key(other) ==> s.slots.contains_key(other),
        !s.clear_sources().slots.contains_key(other),
        s.insert_source(id, desc).0.slots.contains_key(other) ==> s.slots.contains_key(other) || other
            == id,
{
}

/// A sweep, a lookup, a release and a reset take a well-formed cache to a
/// well-formed cache.
pub proof fn lemma_operations_keep_wf<M, C, P>(
    s: SourceTableView<M, C, P>,
    id: u32,
    h: SourceDescRefView<M, C, P>,
)
    requires
        s.wf(),
    ensures
        s.swept().wf(),
        s.get_source(id).0.wf(),
        s.release(h).wf(),
        s.clear_sources().wf(),
{
    assert(s.swept().slots.dom() =~= s.live_ids());
}

/// So does the insertion of a table-backed descriptor.
pub proof fn lemma_insert_keeps_wf<M, C, P>(
    s: SourceTableView<M, C, P>,
    id: u32,
    desc: SourceDescView<M, C, P>,
)
    requires
        s.wf(),
        desc.is_table_backed(),
    ensures
        s.insert_source(id, desc).0.wf(),
{
    let w = s.swept();
    assert(w.slots.dom() =~= s.live_ids());
}

/// Whoever holds a descriptor keeps holding it through every lookup and
/// insertion, and through the release of a handle on another descriptor.
pub proof fn lemma_held_stays_held<M, C, P>(
    s: SourceTableView<M, C, P>,
    lease: Lease,
    id: u32,
    desc: SourceDescView<M, C, P>,
    h: SourceDescRefView<M, C, P>,
)
    requires
        s.wf(),
        s.holds(lease),
    ensures
        s.get_source(id).0.holds(lease),
        s.insert_source(id, desc).0.holds(lease),
        h.lease != Some(lease) ==> s.release(h).holds(lease),
        s.get_source(id).0.handle(lease.table_id.table_id) == s.handle(lease.table_id.table_id),
        s.insert_source(id, desc).0.handle(lease.table_id.table_id) == s.handle(
            lease.table_id.table_id,
        ),
{
}

/// An insertion under a table id whose descriptor is held returns that very
/// descriptor, with the lease of the entry, whatever it was asked to build.
pub proof fn lemma_insert_hits_held<M, C, P>(
    s: SourceTableView<M, C, P>,
    lease: Lease,
    desc: SourceDescView<M, C, P>,
)
    requires
        s.wf(),
        s.holds(lease),
    ensures
        s.insert_source(lease.table_id.table_id, desc).1 == Ok::<_, SourceErrorView>(
            s.handle(lease.table_id.table_id),
        ),
        s.handle(lease.table_id.table_id).lease == Some(lease),
{
}

/// Two insertions under one table id, with no release in between, return the
/// same descriptor instance: the second returns the handle of the first and
/// builds nothing.
pub proof fn lemma_insert_twice_same_instance<M, C, P>(
    s: SourceTableView<M, C, P>,
    id: u32,
    first: SourceDescView<M, C, P>,
    second: SourceDescView<M, C, P>,
)
    requires
        s.wf(),
        first.is_table_backed(),
        s.insert_source(id, first).1 is Ok,
    ensures
        ({
            let (s1, r1) = s.insert_source(id, first);
            let (s2, r2) = s1.insert_source(id, second);
            &&& r2 == r1
            &&& s2.next_instance == s1.next_instance
        }),
{
    lemma_insert_keeps_wf(s, id, first);
}

/// After an insertion every entry is live: the cache has as many entries as
/// there are held descriptors. The entries are those that were live before,
/// and the inserted one if the insertion succeeded.
pub proof fn lemma_insert_leaves_only_live<M, C, P>(
    s: SourceTableView<M, C, P>,
    id: u32,
    desc: SourceDescView<M, C, P>,
)
    requires
        s.wf(),
    ensures
        ({
            let (s1, r1) = s.insert_source(id, desc);
            &&& s1.slots.dom() == s1.live_ids()
            &&& s1.len() == s1.live_ids().len()
            &&& r1 is Ok ==> s1.live_ids() == s.live_ids().insert(id)
            &&& r1 is Err ==> s1.live_ids() == s.live_ids()
        }),
{
    let (s1, r1) = s.insert_source(id, desc);
    assert(s1.slots.dom() =~= s1.live_ids());
}

/// When the only holder of the descriptor of `t1` releases it, the entry is
/// dead but still there; the next insertion under another table id sweeps it,
/// and the cache then holds exactly the live entries.
pub proof fn lemma_release_last_then_insert_sweeps<M, C, P>(
    s: SourceTableView<M, C, P>,
    h: SourceDescRefView<M, C, P>,
    t2: u32,
    desc: SourceDescView<M, C, P>,
)
    requires
        s.wf(),
        h.lease is Some,
        s.holds(h.lease->0),
        s.slots[h.lease->0.table_id.table_id].live->0.holders == 1,
        t2 != h.lease->0.table_id.table_id,
    ensures
        ({
            let t1 = h.lease->0.table_id.table_id;
            let s1 = s.release(h);
            let (s2, r2) = s1.insert_source(t2, desc);
            &&& s1.slots.contains_key(t1)
            &&& !s1.is_live(t1)
            &&& s1.get_source(t1).1 == Err::<SourceDescRefView<M, C, P>, _>(
                SourceErrorView::NotFound(TableId { table_id: t1 }),
            )
            &&& !s2.slots.contains_key(t1)
            &&& s2.slots.dom() == s2.live_ids()
            &&& s2.len() == s2.live_ids().len()
            &&& r2 is Ok ==> s2.live_ids() == s.live_ids().remove(t1).insert(t2)
        }),
{
}

/// After a reset no table id is found, whoever still holds a handle; and a
/// handle from before the reset changes nothing when it is released.
pub proof fn lemma_clear_then_not_found<M, C, P>(
    s: SourceTableView<M, C, P>,
    id: u32,
    h: SourceDescRefView<M, C, P>,
)
    ensures
        s.clear_sources().len() == 0,
        s.clear_sources().get_source(id) == (
            s.clear_sources(),
            Err::<SourceDescRefView<M, C, P>, _>(SourceErrorView::NotFound(TableId { table_id: id })),
        ),
        s.clear_sources().release(h) == s.clear_sources(),
{
}

/// A holder that takes a descriptor and gives it back leaves the cache as it
/// found it, unless the count of holders is at its cap.
pub proof fn lemma_get_then_release_restores<M, C, P>(s: SourceTableView<M, C, P>, id: u32)
    requires
        s.wf(),
        s.is_live(id),
        s.holders(id) + 1 < max_holders(),
    ensures
        ({
            let (s1, r1) = s.get_source(id);
            r1 is Ok && s1.release(r1->Ok_0) == s
        }),
{
    let (s1, r1) = s.get_source(id);
    assert(s1.release(r1->Ok_0).slots =~= s.slots);
}

/// A descriptor that is no longer held is never held again: no operation
/// makes a lease that was given out, and is dead, name a live entry. So a
/// handle from before a reset, or one given back twice over by its entry's
/// death, can do no harm later.
pub proof fn lemma_released_stays_released<M, C, P>(
    s: SourceTableView<M, C, P>,
    lease: Lease,
    id: u32,
    desc: SourceDescView<M, C, P>,
    h: SourceDescRefView<M, C, P>,
)
    requires
        s.wf(),
        lease.instance < s.next_instance,
        !s.holds(lease),
    ensures
        !s.get_source(id).0.holds(lease),
        !s.insert_source(id, desc).0.holds(lease),
        !s.release(h).holds(lease),
        !s.clear_sources().holds(lease),
        s.get_source(id).0.next_instance >= s.next_instance,
        s.insert_source(id, desc).0.next_instance >= s.next_instance,
        s.release(h).next_instance >= s.next_instance,
        s.clear_sources().next_instance >= s.next_instance,
{
}

} // verus!
