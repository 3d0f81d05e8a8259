//! Systems: per-tick transformations that update one component column from
//! another, row by row in lockstep.

use vstd::prelude::*;
use crate::components::{
    Component, ComponentKind, PositionComponent, ValueComponent, VelocityComponent, slots_of_kind,
};
use crate::lock::{read_allowed, write_allowed};
use crate::storage::{ComponentStorage, StorageError, StorageView};
use crate::tuple_iter::{TupleIter, min_len, positions};
use crate::vector::damped;

verus! {

/// A system writes one column and reads another. At each position where
/// both columns have a slot it replaces the written slot by a function of
/// the two slots.
pub trait System {
    spec fn spec_writes(&self) -> ComponentKind;

    spec fn spec_reads(&self) -> ComponentKind;

    /// Whether the row's update stays within the value range.
    spec fn spec_fits(&self, w: Option<Component>, r: Option<Component>) -> bool;

    /// The written slot after the update.
    spec fn spec_row(&self, w: Option<Component>, r: Option<Component>) -> Option<Component>;

    fn writes(&self) -> (k: ComponentKind)
        ensures
            k == self.spec_writes(),
    ;

    fn reads(&self) -> (k: ComponentKind)
        ensures
            k == self.spec_reads(),
    ;

    fn fits(&self, w: &Option<Component>, r: &Option<Component>) -> (b: bool)
        ensures
            b == self.spec_fits(*w, *r),
    ;

    fn row(&self, w: &Option<Component>, r: &Option<Component>) -> (o: Option<Component>)
        requires
            self.spec_fits(*w, *r),
        ensures
            o == self.spec_row(*w, *r),
    ;

    /// An update never puts a value of another kind into the written column.
    proof fn lemma_row_keeps_kind(&self, w: Option<Component>, r: Option<Component>)
        requires
            w is Some ==> w->0.spec_kind() == self.spec_writes(),
        ensures
            self.spec_row(w, r) is Some ==> self.spec_row(w, r)->0.spec_kind() == self.spec_writes(),
    ;
}

/// The number of rows two columns share.
pub open spec fn shared_rows(w: Seq<Option<Component>>, r: Seq<Option<Component>>) -> int {
    if w.len() < r.len() { w.len() as int } else { r.len() as int }
}

/// The written column after every shared row has been updated.
pub open spec fn updated<S: System>(s: S, w: Seq<Option<Component>>, r: Seq<Option<Component>>) -> Seq<Option<Component>> {
    Seq::new(w.len(), |i: int| if i < r.len() { s.spec_row(w[i], r[i]) } else { w[i] })
}

pub open spec fn row_fits<S: System>(s: S, w: Seq<Option<Component>>, r: Seq<Option<Component>>, i: int) -> bool {
    s.spec_fits(w[i], r[i])
}

/// Every shared row's update stays within the value range.
pub open spec fn all_fit<S: System>(s: S, w: Seq<Option<Component>>, r: Seq<Option<Component>>) -> bool {
    forall|i: int| 0 <= i < shared_rows(w, r) ==> #[trigger] row_fits(s, w, r, i)
}

/// `i` is the first shared row whose update leaves the value range.
pub open spec fn is_first_unfit<S: System>(s: S, w: Seq<Option<Component>>, r: Seq<Option<Component>>, i: int) -> bool {
    &&& 0 <= i < shared_rows(w, r)
    &&& !row_fits(s, w, r, i)
    &&& forall|j: int| 0 <= j < i ==> #[trigger] row_fits(s, w, r, j)
}

pub open spec fn first_unfit<S: System>(s: S, w: Seq<Option<Component>>, r: Seq<Option<Component>>) -> int {
    choose|i: int| is_first_unfit(s, w, r, i)
}

proof fn lemma_first_unfit_unique<S: System>(s: S, w: Seq<Option<Component>>, r: Seq<Option<Component>>, i: int)
    requires
        is_first_unfit(s, w, r, i),
    ensures
        first_unfit(s, w, r) == i,
{
    let c = first_unfit(s, w, r);
    assert(is_first_unfit(s, w, r, c));
    if c < i {
        assert(row_fits(s, w, r, c));
    } else if i < c {
        assert(row_fits(s, w, r, i));
    }
}

proof fn lemma_min_len_pair(a: usize, b: usize)
    ensures
        min_len(seq![a, b]) == if b < a { b } else { a },
{
    assert(seq![a, b].drop_last() =~= seq![a]);
    assert(min_len(seq![a]) == a);
}

/// Updates every shared row of `w` from `r`, or, if some row's update would
/// leave the value range, changes nothing and returns the first such row.
pub fn apply_rows<S: System>(s: &S, w: &mut Vec<Option<Component>>, r: &Vec<Option<Component>>) -> (res: Result<(), usize>)
    ensures
        res is Ok <==> all_fit(*s, old(w)@, r@),
        res is Ok ==> final(w)@ == updated(*s, old(w)@, r@),
        res is Err ==> final(w)@ == old(w)@ && is_first_unfit(*s, old(w)@, r@, res->Err_0 as int),
{
    let ghost w0 = w@;
    let lens: Vec<usize> = vec![w.len(), r.len()];
    proof {
        lemma_min_len_pair(w.len(), r.len());
        assert(lens@ =~= seq![w.len(), r.len()]);
    }
    let ghost n = shared_rows(w0, r@);
    let mut rows = TupleIter::from(&lens);
    let mut done: usize = 0;
    assert(n <= w.len());
    loop
        invariant
            rows@ == positions(done as int, n),
            0 <= done <= n <= usize::MAX,
            n == shared_rows(w0, r@),
            w@ == w0,
            forall|j: int| 0 <= j < done ==> #[trigger] row_fits(*s, w0, r@, j),
        ensures
            done == n,
        decreases n - done,
    {
        match rows.next() {
            None => {
                assert(positions(done as int, n).len() == 0);
                break;
            },
            Some(i) => {
                assert(positions(done as int, n).len() > 0);
                assert(done < n);
                assert(i == done);
                if !s.fits(&w[i], &r[i]) {
                    assert(!row_fits(*s, w0, r@, i as int));
                    return Err(i);
                }
                done = done + 1;
                assert(rows@ =~= positions(done as int, n));
            },
        }
    }
    assert(done == n);
    let mut rows = TupleIter::from(&lens);
    let mut done: usize = 0;
    assert(n <= w.len());
    loop
        invariant
            rows@ == positions(done as int, n),
            0 <= done <= n <= usize::MAX,
            n == shared_rows(w0, r@),
            w@.len() == w0.len(),
            all_fit(*s, w0, r@),
            forall|j: int| 0 <= j < done ==> #[trigger] w@[j] == s.spec_row(w0[j], r@[j]),
            forall|j: int| done <= j < w0.len() ==> #[trigger] w@[j] == w0[j],
        ensures
            done == n,
        decreases n - done,
    {
        match rows.next() {
            None => {
                assert(positions(done as int, n).len() == 0);
                break;
            },
            Some(i) => {
                assert(i == done);
                assert(row_fits(*s, w0, r@, i as int));
                let v = s.row(&w[i], &r[i]);
                w.set(i, v);
                done = done + 1;
                assert(rows@ =~= positions(done as int, n));
            },
        }
    }
    assert(w@ =~= updated(*s, w0, r@));
    Ok(())
}

/// An update keeps the written column typed.
pub proof fn lemma_updated_keeps_kind<S: System>(s: S, w: Seq<Option<Component>>, r: Seq<Option<Component>>)
    requires
        slots_of_kind(w, s.spec_writes()),
    ensures
        slots_of_kind(updated(s, w, r), s.spec_writes()),
{
    let u = updated(s, w, r);
    assert forall|i: int| 0 <= i < u.len() && (#[trigger] u[i]) is Some implies u[i]->0.spec_kind() == s.spec_writes() by {
        if i < r.len() {
            s.lemma_row_keeps_kind(w[i], r[i]);
        }
    }
}

/// What one tick of system `s` does to a storage: the new storage, or the
/// fault that stops it.
pub open spec fn tick_outcome<S: System>(s: S, before: StorageView) -> Result<StorageView, StorageError> {
    let wk = s.spec_writes();
    let rk = s.spec_reads();
    if !before.registered(wk) {
        Err(StorageError::UnknownComponentType(wk))
    } else if !write_allowed(before.lock(wk)) {
        Err(StorageError::Contention(wk))
    } else if !before.registered(rk) {
        Err(StorageError::UnknownComponentType(rk))
    } else if rk == wk || before.lock(rk).writer {
        Err(StorageError::Contention(rk))
    } else if !read_allowed(before.lock(rk)) {
        Err(StorageError::TooManyReaders(rk))
    } else if !all_fit(s, before.slots(wk), before.slots(rk)) {
        Err(StorageError::ArithmeticOverflow {
            kind: wk,
            entity_id: first_unfit(s, before.slots(wk), before.slots(rk)) as usize,
        })
    } else {
        Ok(before.with_slots(wk, updated(s, before.slots(wk), before.slots(rk))))
    }
}

/// Runs one tick of `s`: claims its written column exclusively and its read
/// column shared, updates the shared rows, and gives both claims back.
pub fn run_system<S: System>(s: &S, storage: &mut ComponentStorage) -> (res: Result<(), StorageError>)
    requires
        old(storage).wf(),
    ensures
        final(storage).wf(),
        match tick_outcome(*s, old(storage)@) {
            Ok(v) => res is Ok && final(storage)@ == v,
            Err(e) => res == Err::<(), StorageError>(e) && final(storage)@ == old(storage)@,
        },
{
    let ghost before = storage@;
    let wk = s.writes();
    let rk = s.reads();
    let mut claim = match storage.fetch_mut(wk) {
        Ok(c) => c,
        Err(e) => {
            return Err(e);
        },
    };
    let ghost after_write = storage@;
    proof {
        assert(before.columns.insert(wk, before.columns[wk]) =~= before.columns);
    }
    let reader = match storage.fetch_ref(rk) {
        Ok(rd) => rd,
        Err(e) => {
            storage.release_write(claim);
            proof {
                assert(storage@.columns =~= before.columns);
            }
            return Err(e);
        },
    };
    let ghost after_read = storage@;
    let res = {
        let rslots = reader.iterate(storage);
        let wslots = claim.iterate();
        apply_rows(s, wslots, rslots)
    };
    proof {
        if res is Ok {
            lemma_updated_keeps_kind(*s, before.slots(wk), before.slots(rk));
        }
    }
    storage.release_read(reader);
    storage.release_write(claim);
    proof {
        assert(before.columns.insert(rk, before.columns[rk]) =~= before.columns);
        if res is Ok {
            assert(storage@.columns =~= before.with_slots(
                wk,
                updated(*s, before.slots(wk), before.slots(rk)),
            ).columns);
        } else {
            assert(storage@.columns =~= before.columns);
            lemma_first_unfit_unique(*s, before.slots(wk), before.slots(rk), res->Err_0 as int);
        }
    }
    match res {
        Ok(()) => Ok(()),
        Err(i) => Err(StorageError::ArithmeticOverflow { kind: wk, entity_id: i }),
    }
}

/// Adds each entity's acceleration to its velocity.
pub struct ApplyAccelerationSystem;

/// Slows each entity's velocity by its friction, toward zero and never past it.
pub struct ApplyFrictionSystem;

/// Moves each entity's position by its velocity.
pub struct ApplyVelocitySystem;

/// Grows each counter value by its amount.
pub struct AdderSystem;

impl System for ApplyAccelerationSystem {
    open spec fn spec_writes(&self) -> ComponentKind {
        ComponentKind::Velocity
    }

    open spec fn spec_reads(&self) -> ComponentKind {
        ComponentKind::Acceleration
    }

    open spec fn spec_fits(&self, w: Option<Component>, r: Option<Component>) -> bool {
        match (w, r) {
            (Some(Component::Velocity(v)), Some(Component::Acceleration(a))) => v.value.sum_fits(a.value),
            _ => true,
        }
    }

    open spec fn spec_row(&self, w: Option<Component>, r: Option<Component>) -> Option<Component> {
        match (w, r) {
            (Some(Component::Velocity(v)), Some(Component::Acceleration(a))) => Some(
                Component::Velocity(VelocityComponent { value: v.value.spec_add(a.value) }),
            ),
            _ => w,
        }
    }

    fn writes(&self) -> (k: ComponentKind) {
        ComponentKind::Velocity
    }

    fn reads(&self) -> (k: ComponentKind) {
        ComponentKind::Acceleration
    }

    fn fits(&self, w: &Option<Component>, r: &Option<Component>) -> (b: bool) {
        match (w, r) {
            (Some(Component::Velocity(v)), Some(Component::Acceleration(a))) => v.value.can_add(&a.value),
            _ => true,
        }
    }

    fn row(&self, w: &Option<Component>, r: &Option<Component>) -> (o: Option<Component>) {
        match (w, r) {
            (Some(Component::Velocity(v)), Some(Component::Acceleration(a))) => Some(
                Component::Velocity(VelocityComponent { value: v.value.add(&a.value) }),
            ),
            _ => *w,
        }
    }

    proof fn lemma_row_keeps_kind(&self, w: Option<Component>, r: Option<Component>) {
    }
}

impl System for ApplyFrictionSystem {
    open spec fn spec_writes(&self) -> ComponentKind {
        ComponentKind::Velocity
    }

    open spec fn spec_reads(&self) -> ComponentKind {
        ComponentKind::Friction
    }

    open spec fn spec_fits(&self, w: Option<Component>, r: Option<Component>) -> bool {
        true
    }

    open spec fn spec_row(&self, w: Option<Component>, r: Option<Component>) -> Option<Component> {
        match (w, r) {
            (Some(Component::Velocity(v)), Some(Component::Friction(f))) => Some(
                Component::Velocity(VelocityComponent { value: damped(v.value, f.value) }),
            ),
            _ => w,
        }
    }

    fn writes(&self) -> (k: ComponentKind) {
        ComponentKind::Velocity
    }

    fn reads(&self) -> (k: ComponentKind) {
        ComponentKind::Friction
    }

    fn fits(&self, w: &Option<Component>, r: &Option<Component>) -> (b: bool) {
        true
    }

    fn row(&self, w: &Option<Component>, r: &Option<Component>) -> (o: Option<Component>) {
        match (w, r) {
            (Some(Component::Velocity(v)), Some(Component::Friction(f))) => Some(
                Component::Velocity(VelocityComponent { value: v.value.damp(f.value) }),
            ),
            _ => *w,
        }
    }

    proof fn lemma_row_keeps_kind(&self, w: Option<Component>, r: Option<Component>) {
    }
}

impl System for ApplyVelocitySystem {
    open spec fn spec_writes(&self) -> ComponentKind {
        ComponentKind::Position
    }

    open spec fn spec_reads(&self) -> ComponentKind {
        ComponentKind::Velocity
    }

    open spec fn spec_fits(&self, w: Option<Component>, r: Option<Component>) -> bool {
        match (w, r) {
            (Some(Component::Position(p)), Some(Component::Velocity(v))) => p.value.sum_fits(v.value),
            _ => true,
        }
    }

    open spec fn spec_row(&self, w: Option<Component>, r: Option<Component>) -> Option<Component> {
        match (w, r) {
            (Some(Component::Position(p)), Some(Component::Velocity(v))) => Some(
                Component::Position(PositionComponent { value: p.value.spec_add(v.value) }),
            ),
            _ => w,
        }
    }

    fn writes(&self) -> (k: ComponentKind) {
        ComponentKind::Position
    }

    fn reads(&self) -> (k: ComponentKind) {
        ComponentKind::Velocity
    }

    fn fits(&self, w: &Option<Component>, r: &Option<Component>) -> (b: bool) {
        match (w, r) {
            (Some(Component::Position(p)), Some(Component::Velocity(v))) => p.value.can_add(&v.value),
            _ => true,
        }
    }

    fn row(&self, w: &Option<Component>, r: &Option<Component>) -> (o: Option<Component>) {
        match (w, r) {
            (Some(Component::Position(p)), Some(Component::Velocity(v))) => Some(
                Component::Position(PositionComponent { value: p.value.add(&v.value) }),
            ),
            _ => *w,
        }
    }

    proof fn lemma_row_keeps_kind(&self, w: Option<Component>, r: Option<Component>) {
    }
}

impl System for AdderSystem {
    open spec fn spec_writes(&self) -> ComponentKind {
        ComponentKind::Value
    }

    open spec fn spec_reads(&self) -> ComponentKind {
        ComponentKind::Amount
    }

    open spec fn spec_fits(&self, w: Option<Component>, r: Option<Component>) -> bool {
        match (w, r) {
            (Some(Component::Value(v)), Some(Component::Amount(a))) => i32::MIN <= v.value + a.amount
                <= i32::MAX,
            _ => true,
        }
    }

    open spec fn spec_row(&self, w: Option<Component>, r: Option<Component>) -> Option<Component> {
        match (w, r) {
            (Some(Component::Value(v)), Some(Component::Amount(a))) => Some(
                Component::Value(ValueComponent { value: (v.value + a.amount) as i32 }),
            ),
            _ => w,
        }
    }

    fn writes(&self) -> (k: ComponentKind) {
        ComponentKind::Value
    }

    fn reads(&self) -> (k: ComponentKind) {
        ComponentKind::Amount
    }

    fn fits(&self, w: &Option<Component>, r: &Option<Component>) -> (b: bool) {
        match (w, r) {
            (Some(Component::Value(v)), Some(Component::Amount(a))) => v.value.checked_add(a.amount).is_some(),
            _ => true,
        }
    }

    fn row(&self, w: &Option<Component>, r: &Option<Component>) -> (o: Option<Component>) {
        match (w, r) {
            (Some(Component::Value(v)), Some(Component::Amount(a))) => Some(
                Component::Value(ValueComponent { value: v.value + a.amount }),
            ),
            _ => *w,
        }
    }

    proof fn lemma_row_keeps_kind(&self, w: Option<Component>, r: Option<Component>) {
    }
}

impl ApplyAccelerationSystem {
    /// Runs one tick of this system on `storage`.
    pub fn tick(&self, storage: &mut ComponentStorage) -> (res: Result<(), StorageError>)
        requires
            old(storage).wf(),
        ensures
            final(storage).wf(),
            match tick_outcome(*self, old(storage)@) {
                Ok(v) => res is Ok && final(storage)@ == v,
                Err(e) => res == Err::<(), StorageError>(e) && final(storage)@ == old(storage)@,
            },
    {
        run_system(self, storage)
    }
}

impl ApplyFrictionSystem {
    /// Runs one tick of this system on `storage`.
    pub fn tick(&self, storage: &mut ComponentStorage) -> (res: Result<(), StorageError>)
        requires
            old(storage).wf(),
        ensures
            final(storage).wf(),
            match tick_outcome(*self, old(storage)@) {
                Ok(v) => res is Ok && final(storage)@ == v,
                Err(e) => res == Err::<(), StorageError>(e) && final(storage)@ == old(storage)@,
            },
    {
        run_system(self, storage)
    }
}

impl ApplyVelocitySystem {
    /// Runs one tick of this system on `storage`.
    pub fn tick(&self, storage: &mut ComponentStorage) -> (res: Result<(), StorageError>)
        requires
            old(storage).wf(),
        ensures
            final(storage).wf(),
            match tick_outcome(*self, old(storage)@) {
                Ok(v) => res is Ok && final(storage)@ == v,
                Err(e) => res == Err::<(), StorageError>(e) && final(storage)@ == old(storage)@,
            },
    {
        run_system(self, storage)
    }
}

impl AdderSystem {
    /// Runs one tick of this system on `storage`.
    pub fn tick(&self, storage: &mut ComponentStorage) -> (res: Result<(), StorageError>)
        requires
            old(storage).wf(),
        ensures
            final(storage).wf(),
            match tick_outcome(*self, old(storage)@) {
                Ok(v) => res is Ok && final(storage)@ == v,
                Err(e) => res == Err::<(), StorageError>(e) && final(storage)@ == old(storage)@,
            },
    {
        run_system(self, storage)
    }
}

} // verus!
