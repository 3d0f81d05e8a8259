//! Component storage: one column of entity slots per registered component
//! kind, each guarded by a shared-read / exclusive-write claim.

use vstd::prelude::*;
use crate::components::{Component, ComponentKind, KIND_COUNT, slots_of_kind};
use crate::lock::{AccessLock, ClaimEvent, ClaimFault, read_allowed, step, write_allowed};

verus! {

/// What can go wrong when using the storage.
#[derive(Clone, Copy, Debug, PartialEq, Eq, Structural)]
pub enum StorageError {
    /// The kind was never registered.
    UnknownComponentType(ComponentKind),
    /// The kind is registered already.
    AlreadyRegistered(ComponentKind),
    /// The entity already holds a component of this kind.
    DuplicateComponent { kind: ComponentKind, entity_id: usize },
    /// The entity id is not below the storage's capacity.
    IndexOutOfRange { kind: ComponentKind, entity_id: usize },
    /// The claim conflicts with the claims outstanding on the column.
    Contention(ComponentKind),
    /// The column has as many readers as can be counted.
    TooManyReaders(ComponentKind),
    /// Updating the entity's component would leave the value range.
    ArithmeticOverflow { kind: ComponentKind, entity_id: usize },
}

/// The state of one registered column.
pub struct ColumnView {
    pub slots: Seq<Option<Component>>,
    pub lock: AccessLock,
}

/// The state of the storage: its entity capacity and its registered columns.
pub struct StorageView {
    pub capacity: nat,
    pub columns: Map<ComponentKind, ColumnView>,
}

/// A column as it is while no writer holds it out.
pub open spec fn fresh_column(capacity: nat) -> ColumnView {
    ColumnView { slots: Seq::new(capacity, |i: int| None), lock: AccessLock { readers: 0, writer: false } }
}

impl StorageView {
    /// The invariant of every storage: each column holds only its own kind,
    /// its lock is well formed, and it has one slot per entity except while a
    /// writer holds its slots out.
    pub open spec fn wf(self) -> bool {
        forall|k: ComponentKind| #[trigger] self.columns.contains_key(k) ==> {
            let c = self.columns[k];
            &&& c.lock.wf()
            &&& slots_of_kind(c.slots, k)
            &&& c.lock.writer ==> c.slots.len() == 0
            &&& !c.lock.writer ==> c.slots.len() == self.capacity
        }
    }

    pub open spec fn registered(self, k: ComponentKind) -> bool {
        self.columns.contains_key(k)
    }

    pub open spec fn slots(self, k: ComponentKind) -> Seq<Option<Component>> {
        self.columns[k].slots
    }

    pub open spec fn lock(self, k: ComponentKind) -> AccessLock {
        self.columns[k].lock
    }

    /// The same storage with column `k` replaced.
    pub open spec fn with_column(self, k: ComponentKind, c: ColumnView) -> StorageView {
        StorageView { columns: self.columns.insert(k, c), ..self }
    }

    /// The same storage with column `k`'s lock replaced.
    pub open spec fn with_lock(self, k: ComponentKind, l: AccessLock) -> StorageView {
        self.with_column(k, ColumnView { lock: l, ..self.columns[k] })
    }

    /// The same storage with column `k`'s slots replaced.
    pub open spec fn with_slots(self, k: ComponentKind, s: Seq<Option<Component>>) -> StorageView {
        self.with_column(k, ColumnView { slots: s, ..self.columns[k] })
    }

    /// The storage after registering `k`; a registered kind is left as it is.
    pub open spec fn after_register(self, k: ComponentKind) -> StorageView {
        if self.registered(k) {
            self
        } else {
            self.with_column(k, fresh_column(self.capacity))
        }
    }

    /// The storage after a successful `add_to_entity(id, c)`.
    pub open spec fn after_add(self, id: usize, c: Component) -> StorageView {
        self.with_slots(c.spec_kind(), self.slots(c.spec_kind()).update(id as int, Some(c)))
    }

    /// The outcome that adding component `c` to entity `id` owes.
    pub open spec fn add_result(self, id: usize, c: Component) -> Result<(), StorageError> {
        let k = c.spec_kind();
        if !self.registered(k) {
            Err(StorageError::UnknownComponentType(k))
        } else if id >= self.capacity {
            Err(StorageError::IndexOutOfRange { kind: k, entity_id: id })
        } else if !self.lock(k).is_free() {
            Err(StorageError::Contention(k))
        } else if self.slots(k)[id as int] is Some {
            Err(StorageError::DuplicateComponent { kind: k, entity_id: id })
        } else {
            Ok(())
        }
    }
}

struct Column {
    slots: Vec<Option<Component>>,
    lock: AccessLock,
}

/// The kind whose column sits at slot `i` of the column table.
pub open spec fn kind_at(i: int) -> ComponentKind {
    if i == 0 {
        ComponentKind::Position
    } else if i == 1 {
        ComponentKind::Velocity
    } else if i == 2 {
        ComponentKind::Acceleration
    } else if i == 3 {
        ComponentKind::Friction
    } else if i == 4 {
        ComponentKind::Value
    } else {
        ComponentKind::Amount
    }
}

/// Holds one column per registered component kind.
pub struct ComponentStorage {
    capacity: usize,
    columns: Vec<Option<Column>>,
}

/// A shared claim on one column. Its holder reads the column through
/// [`Read::iterate`] and gives the claim back with
/// [`ComponentStorage::release_read`].
pub struct Read {
    kind: ComponentKind,
}

/// The exclusive claim on one column. While it is outstanding the column's
/// slots live here; [`ComponentStorage::release_write`] puts them back.
pub struct Write {
    kind: ComponentKind,
    slots: Vec<Option<Component>>,
}

impl Read {
    pub closed spec fn spec_kind(&self) -> ComponentKind {
        self.kind
    }

    pub fn kind(&self) -> (r: ComponentKind)
        ensures
            r == self.spec_kind(),
    {
        self.kind
    }

    /// The claimed column's slots, in entity order.
    pub fn iterate<'a>(&self, storage: &'a ComponentStorage) -> (r: &'a Vec<Option<Component>>)
        requires
            storage.wf(),
            storage@.registered(self.spec_kind()),
            storage@.lock(self.spec_kind()).readers > 0,
        ensures
            r@ == storage@.slots(self.spec_kind()),
            r@.len() == storage@.capacity,
            slots_of_kind(r@, self.spec_kind()),
    {
        let col = storage.columns[self.kind.index()].as_ref().unwrap();
        &col.slots
    }
}

impl Write {
    pub closed spec fn spec_kind(&self) -> ComponentKind {
        self.kind
    }

    pub closed spec fn spec_slots(&self) -> Seq<Option<Component>> {
        self.slots@
    }

    pub fn kind(&self) -> (r: ComponentKind)
        ensures
            r == self.spec_kind(),
    {
        self.kind
    }

    /// The claimed column's slots, in entity order, for updating in place.
    pub fn iterate(&mut self) -> (r: &mut Vec<Option<Component>>)
        ensures
            r@ == old(self).spec_slots(),
            final(self).spec_slots() == final(r)@,
            final(self).spec_kind() == old(self).spec_kind(),
    {
        &mut self.slots
    }
}

impl View for ComponentStorage {
    type V = StorageView;

    closed spec fn view(&self) -> StorageView {
        StorageView {
            capacity: self.capacity as nat,
            columns: Map::new(
                |k: ComponentKind| self.columns@[k.spec_index()] is Some,
                |k: ComponentKind|
                    ColumnView {
                        slots: self.columns@[k.spec_index()]->0.slots@,
                        lock: self.columns@[k.spec_index()]->0.lock,
                    },
            ),
        }
    }
}

impl ComponentStorage {
    /// Internal consistency: one table entry per kind, and each registered
    /// column typed, well locked and sized.
    pub closed spec fn wf(&self) -> bool {
        &&& self.columns.len() == KIND_COUNT
        &&& forall|i: int| 0 <= i < KIND_COUNT && #[trigger] self.columns@[i] is Some ==> {
            let c = self.columns@[i]->0;
            &&& c.lock.wf()
            &&& slots_of_kind(c.slots@, kind_at(i))
            &&& c.lock.writer ==> c.slots.len() == 0
            &&& !c.lock.writer ==> c.slots.len() == self.capacity
        }
    }

    /// A well-formed storage satisfies the view-level invariant.
    pub proof fn lemma_wf(&self)
        requires
            self.wf(),
        ensures
            self@.wf(),
    {
        assert forall|k: ComponentKind| #[trigger] self@.columns.contains_key(k) implies {
            let c = self@.columns[k];
            &&& c.lock.wf()
            &&& slots_of_kind(c.slots, k)
            &&& c.lock.writer ==> c.slots.len() == 0
            &&& !c.lock.writer ==> c.slots.len() == self@.capacity
        } by {
            assert(kind_at(k.spec_index()) == k);
            assert(self.columns@[k.spec_index()] is Some);
        }
    }

    /// An empty storage for `capacity` entities, with no kind registered.
    pub fn new(capacity: usize) -> (r: ComponentStorage)
        ensures
            r.wf(),
            r@.capacity == capacity,
            r@.columns == Map::<ComponentKind, ColumnView>::empty(),
    {
        let mut columns: Vec<Option<Column>> = Vec::new();
        let mut i: usize = 0;
        while i < KIND_COUNT
            invariant
                i <= KIND_COUNT,
                columns.len() == i,
                forall|j: int| 0 <= j < i ==> columns@[j] is None,
            decreases KIND_COUNT - i,
        {
            columns.push(None);
            i = i + 1;
        }
        let r = ComponentStorage { capacity, columns };
        assert(r@.columns =~= Map::<ComponentKind, ColumnView>::empty());
        r
    }

    /// The number of entity slots in each column.
    pub fn capacity(&self) -> (r: usize)
        ensures
            r == self@.capacity,
    {
        self.capacity
    }

    pub fn is_registered(&self, kind: ComponentKind) -> (r: bool)
        requires
            self.wf(),
        ensures
            r == self@.registered(kind),
    {
        self.columns[kind.index()].is_some()
    }

    /// Reserves a column for `kind`, with an empty slot for every entity.
    /// A kind can be registered once.
    pub fn register_component_type(&mut self, kind: ComponentKind) -> (r: Result<(), StorageError>)
        requires
            old(self).wf(),
        ensures
            final(self).wf(),
            old(self)@.registered(kind) ==> r == Err::<(), StorageError>(
                StorageError::AlreadyRegistered(kind),
            ) && final(self)@ == old(self)@,
            !old(self)@.registered(kind) ==> r is Ok,
            final(self)@ == old(self)@.after_register(kind),
    {
        let i = kind.index();
        if self.columns[i].is_some() {
            return Err(StorageError::AlreadyRegistered(kind));
        }
        let mut slots: Vec<Option<Component>> = Vec::new();
        let mut j: usize = 0;
        while j < self.capacity
            invariant
                j <= self.capacity,
                slots@ =~= Seq::new(j as nat, |x: int| None::<Component>),
            decreases self.capacity - j,
        {
            slots.push(None);
            j = j + 1;
        }
        self.columns.set(i, Some(Column { slots, lock: AccessLock::new() }));
        assert(self@.columns =~= old(self)@.columns.insert(kind, fresh_column(old(self)@.capacity)));
        Ok(())
    }

    /// Puts `component` into entity `entity_id`'s slot of its kind's column.
    pub fn add_to_entity(&mut self, entity_id: usize, component: Component) -> (r: Result<(), StorageError>)
        requires
            old(self).wf(),
        ensures
            final(self).wf(),
            r == old(self)@.add_result(entity_id, component),
            r is Ok ==> final(self)@ == old(self)@.after_add(entity_id, component),
            r is Err ==> final(self)@ == old(self)@,
    {
        let kind = component.kind();
        let i = kind.index();
        let mut taken: Option<Column> = None;
        self.columns.set_and_swap(i, &mut taken);
        match taken {
            None => {
                self.columns.set(i, None);
                assert(self.columns@ =~= old(self).columns@);
                Err(StorageError::UnknownComponentType(kind))
            },
            Some(mut col) => {
                let res = if entity_id >= self.capacity {
                    Err(StorageError::IndexOutOfRange { kind, entity_id })
                } else if !col.lock.is_free_now() {
                    Err(StorageError::Contention(kind))
                } else if col.slots[entity_id].is_some() {
                    Err(StorageError::DuplicateComponent { kind, entity_id })
                } else {
                    col.slots.set(entity_id, Some(component));
                    Ok(())
                };
                self.columns.set(i, Some(col));
                proof {
                    if res is Ok {
                        assert(self@.columns =~= old(self)@.with_slots(
                            kind,
                            old(self)@.slots(kind).update(entity_id as int, Some(component)),
                        ).columns);
                    } else {
                        assert(self.columns@ =~= old(self).columns@);
                    }
                }
                res
            },
        }
    }

    /// Claims shared access to `kind`'s column.
    pub fn fetch_ref(&mut self, kind: ComponentKind) -> (r: Result<Read, StorageError>)
        requires
            old(self).wf(),
        ensures
            final(self).wf(),
            !old(self)@.registered(kind) ==> r is Err && r->Err_0 == StorageError::UnknownComponentType(kind),
            old(self)@.registered(kind) ==> {
                let l = old(self)@.lock(kind);
                &&& r is Ok <==> read_allowed(l)
                &&& l.writer ==> r is Err && r->Err_0 == StorageError::Contention(kind)
                &&& !l.writer && !read_allowed(l) ==> r is Err && r->Err_0 == StorageError::TooManyReaders(kind)
                &&& r is Ok ==> r->Ok_0.spec_kind() == kind && final(self)@ == old(self)@.with_lock(
                    kind,
                    AccessLock { readers: (l.readers + 1) as usize, ..l },
                )
            },
            old(self)@.registered(kind) ==> final(self)@.lock(kind) == step(
                old(self)@.lock(kind),
                ClaimEvent::ClaimRead,
            ),
            r is Err ==> final(self)@ == old(self)@,
    {
        let i = kind.index();
        let mut taken: Option<Column> = None;
        self.columns.set_and_swap(i, &mut taken);
        match taken {
            None => {
                self.columns.set(i, None);
                assert(self.columns@ =~= old(self).columns@);
                Err(StorageError::UnknownComponentType(kind))
            },
            Some(mut col) => {
                let claimed = col.lock.claim_read();
                self.columns.set(i, Some(col));
                match claimed {
                    Ok(()) => {
                        proof {
                            let l = old(self)@.lock(kind);
                            assert(self@.columns =~= old(self)@.with_lock(
                                kind,
                                AccessLock { readers: (l.readers + 1) as usize, ..l },
                            ).columns);
                        }
                        Ok(Read { kind })
                    },
                    Err(fault) => {
                        assert(self.columns@ =~= old(self).columns@);
                        match fault {
                            ClaimFault::Contention => Err(StorageError::Contention(kind)),
                            ClaimFault::TooManyReaders => Err(StorageError::TooManyReaders(kind)),
                        }
                    },
                }
            },
        }
    }

    /// Gives back a shared claim.
    pub fn release_read(&mut self, claim: Read)
        requires
            old(self).wf(),
            old(self)@.registered(claim.spec_kind()),
            old(self)@.lock(claim.spec_kind()).readers > 0,
        ensures
            final(self)@.lock(claim.spec_kind()) == step(old(self)@.lock(claim.spec_kind()), ClaimEvent::ReleaseRead),
            final(self).wf(),
            final(self)@ == old(self)@.with_lock(
                claim.spec_kind(),
                AccessLock {
                    readers: (old(self)@.lock(claim.spec_kind()).readers - 1) as usize,
                    ..old(self)@.lock(claim.spec_kind())
                },
            ),
    {
        let kind = claim.kind;
        let i = kind.index();
        let mut taken: Option<Column> = None;
        self.columns.set_and_swap(i, &mut taken);
        let mut col = taken.unwrap();
        col.lock.release_read();
        self.columns.set(i, Some(col));
        proof {
            let l = old(self)@.lock(kind);
            assert(self@.columns =~= old(self)@.with_lock(
                kind,
                AccessLock { readers: (l.readers - 1) as usize, ..l },
            ).columns);
        }
    }

    /// Claims exclusive access to `kind`'s column; the returned claim holds
    /// the column's slots until it is released.
    pub fn fetch_mut(&mut self, kind: ComponentKind) -> (r: Result<Write, StorageError>)
        requires
            old(self).wf(),
        ensures
            final(self).wf(),
            !old(self)@.registered(kind) ==> r is Err && r->Err_0 == StorageError::UnknownComponentType(kind),
            old(self)@.registered(kind) ==> {
                let l = old(self)@.lock(kind);
                &&& r is Ok <==> write_allowed(l)
                &&& !write_allowed(l) ==> r is Err && r->Err_0 == StorageError::Contention(kind)
                &&& r is Ok ==> {
                    &&& r->Ok_0.spec_kind() == kind
                    &&& r->Ok_0.spec_slots() == old(self)@.slots(kind)
                    &&& r->Ok_0.spec_slots().len() == old(self)@.capacity
                    &&& slots_of_kind(r->Ok_0.spec_slots(), kind)
                    &&& final(self)@ == old(self)@.with_column(
                        kind,
                        ColumnView { slots: Seq::empty(), lock: AccessLock { writer: true, ..l } },
                    )
                }
            },
            old(self)@.registered(kind) ==> final(self)@.lock(kind) == step(
                old(self)@.lock(kind),
                ClaimEvent::ClaimWrite,
            ),
            r is Err ==> final(self)@ == old(self)@,
    {
        let i = kind.index();
        let mut taken: Option<Column> = None;
        self.columns.set_and_swap(i, &mut taken);
        match taken {
            None => {
                self.columns.set(i, None);
                assert(self.columns@ =~= old(self).columns@);
                Err(StorageError::UnknownComponentType(kind))
            },
            Some(mut col) => {
                match col.lock.claim_write() {
                    Ok(()) => {
                        let mut slots: Vec<Option<Component>> = Vec::new();
                        core::mem::swap(&mut slots, &mut col.slots);
                        self.columns.set(i, Some(col));
                        proof {
                            let l = old(self)@.lock(kind);
                            assert(self@.columns =~= old(self)@.with_column(
                                kind,
                                ColumnView { slots: Seq::empty(), lock: AccessLock { writer: true, ..l } },
                            ).columns);
                        }
                        Ok(Write { kind, slots })
                    },
                    Err(_) => {
                        self.columns.set(i, Some(col));
                        assert(self.columns@ =~= old(self).columns@);
                        Err(StorageError::Contention(kind))
                    },
                }
            },
        }
    }

    /// Gives back the exclusive claim, with the slots it holds.
    pub fn release_write(&mut self, claim: Write)
        requires
            old(self).wf(),
            old(self)@.registered(claim.spec_kind()),
            old(self)@.lock(claim.spec_kind()).writer,
            claim.spec_slots().len() == old(self)@.capacity,
            slots_of_kind(claim.spec_slots(), claim.spec_kind()),
        ensures
            final(self)@.lock(claim.spec_kind()) == step(old(self)@.lock(claim.spec_kind()), ClaimEvent::ReleaseWrite),
            final(self).wf(),
            final(self)@ == old(self)@.with_column(
                claim.spec_kind(),
                ColumnView { slots: claim.spec_slots(), lock: AccessLock { readers: 0, writer: false } },
            ),
    {
        let Write { kind, slots } = claim;
        let i = kind.index();
        let mut taken: Option<Column> = None;
        self.columns.set_and_swap(i, &mut taken);
        let mut col = taken.unwrap();
        col.lock.release_write();
        col.slots = slots;
        self.columns.set(i, Some(col));
        proof {
            assert(self@.columns =~= old(self)@.with_column(
                kind,
                ColumnView { slots: claim.spec_slots(), lock: AccessLock { readers: 0, writer: false } },
            ).columns);
        }
    }

    /// A copy of `kind`'s slots, taken under a shared claim that is given
    /// back before returning.
    pub fn read_column(&mut self, kind: ComponentKind) -> (r: Result<Vec<Option<Component>>, StorageError>)
        requires
            old(self).wf(),
        ensures
            final(self).wf(),
            final(self)@ == old(self)@,
            !old(self)@.registered(kind) ==> r is Err && r->Err_0 == StorageError::UnknownComponentType(kind),
            old(self)@.registered(kind) ==> {
                let l = old(self)@.lock(kind);
                &&& r is Ok <==> read_allowed(l)
                &&& l.writer ==> r is Err && r->Err_0 == StorageError::Contention(kind)
                &&& !l.writer && !read_allowed(l) ==> r is Err && r->Err_0 == StorageError::TooManyReaders(kind)
                &&& r is Ok ==> r->Ok_0@ == old(self)@.slots(kind) && r->Ok_0@.len() == old(self)@.capacity
                    && slots_of_kind(r->Ok_0@, kind)
            },
    {
        let claim = match self.fetch_ref(kind) {
            Ok(c) => c,
            Err(e) => {
                return Err(e);
            },
        };
        let mut copy: Vec<Option<Component>> = Vec::new();
        {
            let slots = claim.iterate(self);
            let mut i: usize = 0;
            while i < slots.len()
                invariant
                    i <= slots.len(),
                    copy@ == slots@.subrange(0, i as int),
                decreases slots.len() - i,
            {
                copy.push(slots[i]);
                i = i + 1;
                assert(copy@ =~= slots@.subrange(0, i as int));
            }
            assert(copy@ =~= slots@);
        }
        self.release_read(claim);
        proof {
            assert(old(self)@.columns.insert(kind, old(self)@.columns[kind]) =~= old(self)@.columns);
            assert(self@.columns =~= old(self)@.columns);
        }
        Ok(copy)
    }
}

/// Registering the same kind twice fails: whatever the first registration
/// did, the second finds the kind registered.
pub proof fn lemma_register_twice_fails(s: StorageView, k: ComponentKind)
    ensures
        s.after_register(k).registered(k),
        s.after_register(k).after_register(k) == s.after_register(k),
{
}

/// Entity slots of one kind are independent: after a component is added to
/// entity `a`, adding another of that kind to `a` fails as a duplicate, while
/// adding one to a different entity `b` succeeds exactly as it did before.
pub proof fn lemma_entity_slots_independent(s: StorageView, a: usize, b: usize, ca: Component, cb: Component)
    requires
        s.wf(),
        s.add_result(a, ca) is Ok,
        cb.spec_kind() == ca.spec_kind(),
        a != b,
    ensures
        s.after_add(a, ca).add_result(a, cb) == Err::<(), StorageError>(
            StorageError::DuplicateComponent { kind: ca.spec_kind(), entity_id: a },
        ),
        s.after_add(a, ca).add_result(b, cb) == s.add_result(b, cb),
{
}

/// Fetching is type safe: every value in a registered kind's column is of
/// that kind.
pub proof fn lemma_fetch_type_safe(s: &ComponentStorage, k: ComponentKind)
    requires
        s.wf(),
        s@.registered(k),
    ensures
        slots_of_kind(s@.slots(k), k),
{
    s.lemma_wf();
}

} // verus!
