//! Read-only systems that report the current component values, for a
//! caller to present.

use vstd::prelude::*;
use crate::components::{Component, ComponentKind};
use crate::lock::read_allowed;
use crate::storage::{ComponentStorage, StorageError, StorageView};
use crate::tuple_iter::{TupleIter, lemma_tuple_count, positions};
use crate::vector::Vector2d;

verus! {

/// One entity that has a position, a velocity, an acceleration and a friction.
#[derive(Clone, Copy, Debug, PartialEq, Eq, Structural)]
pub struct EntityState {
    pub entity_id: usize,
    pub position: Vector2d,
    pub velocity: Vector2d,
    pub acceleration: Vector2d,
    pub friction: u64,
}

/// One entity's position.
#[derive(Clone, Copy, Debug, PartialEq, Eq, Structural)]
pub struct PositionRow {
    pub entity_id: usize,
    pub position: Vector2d,
}

/// One entity's counter value.
#[derive(Clone, Copy, Debug, PartialEq, Eq, Structural)]
pub struct ValueRow {
    pub entity_id: usize,
    pub value: i32,
}

/// One entity's counter value and its growth per tick.
#[derive(Clone, Copy, Debug, PartialEq, Eq, Structural)]
pub struct ValueAmountRow {
    pub entity_id: usize,
    pub value: i32,
    pub amount: i32,
}

/// The counter values among the first `n` slots, in entity order.
pub open spec fn value_rows(v: Seq<Option<Component>>, n: int) -> Seq<ValueRow>
    decreases n,
{
    if n <= 0 {
        Seq::empty()
    } else {
        let prev = value_rows(v, n - 1);
        match v[n - 1] {
            Some(Component::Value(c)) => prev.push(ValueRow { entity_id: (n - 1) as usize, value: c.value }),
            _ => prev,
        }
    }
}

/// The entities among the first `n` rows that have both a counter value and
/// an amount, in entity order.
pub open spec fn value_amount_rows(v: Seq<Option<Component>>, a: Seq<Option<Component>>, n: int) -> Seq<ValueAmountRow>
    decreases n,
{
    if n <= 0 {
        Seq::empty()
    } else {
        let prev = value_amount_rows(v, a, n - 1);
        match (v[n - 1], a[n - 1]) {
            (Some(Component::Value(vc)), Some(Component::Amount(ac))) => prev.push(
                ValueAmountRow { entity_id: (n - 1) as usize, value: vc.value, amount: ac.amount },
            ),
            _ => prev,
        }
    }
}

/// The positions among the first `n` slots, in entity order.
pub open spec fn position_rows(p: Seq<Option<Component>>, n: int) -> Seq<PositionRow>
    decreases n,
{
    if n <= 0 {
        Seq::empty()
    } else {
        let prev = position_rows(p, n - 1);
        match p[n - 1] {
            Some(Component::Position(c)) => prev.push(PositionRow { entity_id: (n - 1) as usize, position: c.value }),
            _ => prev,
        }
    }
}

/// The full entity states among the first `n` rows, in entity order.
pub open spec fn state_rows(
    p: Seq<Option<Component>>,
    v: Seq<Option<Component>>,
    a: Seq<Option<Component>>,
    f: Seq<Option<Component>>,
    n: int,
) -> Seq<EntityState>
    decreases n,
{
    if n <= 0 {
        Seq::empty()
    } else {
        let prev = state_rows(p, v, a, f, n - 1);
        let i = n - 1;
        match (p[i], v[i], a[i], f[i]) {
            (
                Some(Component::Position(pc)),
                Some(Component::Velocity(vc)),
                Some(Component::Acceleration(ac)),
                Some(Component::Friction(fc)),
            ) => prev.push(
                EntityState {
                    entity_id: i as usize,
                    position: pc.value,
                    velocity: vc.value,
                    acceleration: ac.value,
                    friction: fc.value,
                },
            ),
            _ => prev,
        }
    }
}

/// Whether `kind`'s column can be read now, and the fault if not.
pub open spec fn read_fault(s: StorageView, kind: ComponentKind) -> Option<StorageError> {
    if !s.registered(kind) {
        Some(StorageError::UnknownComponentType(kind))
    } else if s.lock(kind).writer {
        Some(StorageError::Contention(kind))
    } else if !read_allowed(s.lock(kind)) {
        Some(StorageError::TooManyReaders(kind))
    } else {
        None
    }
}

/// Reports every entity's position.
pub struct PrintPositionsSystem;

/// Reports every entity that has all four motion components.
pub struct PrintStateSystem;

/// Reports every counter value.
pub struct ValuePrintSystem;

/// Reports every counter value together with its amount.
pub struct PrintSystem;

impl ValuePrintSystem {
    /// The rows of present counter values in `values`, in entity order.
    pub fn rows(&self, values: &Vec<Option<Component>>) -> (r: Vec<ValueRow>)
        ensures
            r@ == value_rows(values@, values@.len() as int),
    {
        let mut out: Vec<ValueRow> = Vec::new();
        let mut i: usize = 0;
        while i < values.len()
            invariant
                i <= values.len(),
                out@ == value_rows(values@, i as int),
            decreases values.len() - i,
        {
            match &values[i] {
                Some(Component::Value(c)) => {
                    out.push(ValueRow { entity_id: i, value: c.value });
                },
                _ => {},
            }
            i = i + 1;
        }
        out
    }

    /// Reads the counter column and reports its present values.
    pub fn tick(&self, storage: &mut ComponentStorage) -> (r: Result<Vec<ValueRow>, StorageError>)
        requires
            old(storage).wf(),
        ensures
            final(storage).wf(),
            final(storage)@ == old(storage)@,
            match read_fault(old(storage)@, ComponentKind::Value) {
                Some(e) => r == Err::<Vec<ValueRow>, StorageError>(e),
                None => r is Ok && r->Ok_0@ == value_rows(
                    old(storage)@.slots(ComponentKind::Value),
                    old(storage)@.capacity as int,
                ),
            },
    {
        let slots = storage.read_column(ComponentKind::Value)?;
        Ok(self.rows(&slots))
    }
}

impl PrintSystem {
    /// The entities with both a counter value and an amount, walked in lockstep.
    pub fn rows(&self, values: &Vec<Option<Component>>, amounts: &Vec<Option<Component>>) -> (r: Vec<ValueAmountRow>)
        requires
            values.len() == amounts.len(),
        ensures
            r@ == value_amount_rows(values@, amounts@, values@.len() as int),
    {
        let lens: Vec<usize> = vec![values.len(), amounts.len()];
        proof {
            assert(lens@ =~= seq![values.len(), amounts.len()]);
            assert(forall|i: int| 0 <= i < lens@.len() ==> #[trigger] lens@[i] == values.len());
            lemma_tuple_count(lens@, values.len());
        }
        let ghost n = values.len() as int;
        let mut rows = TupleIter::from(&lens);
        let mut out: Vec<ValueAmountRow> = Vec::new();
        let mut done: usize = 0;
        loop
            invariant
                rows@ == positions(done as int, n),
                0 <= done <= n,
                n == values.len(),
                values.len() == amounts.len(),
                out@ == value_amount_rows(values@, amounts@, done as int),
            ensures
                done == n,
                out@ == value_amount_rows(values@, amounts@, done as int),
            decreases n - done,
        {
            match rows.next() {
                None => {
                    assert(positions(done as int, n).len() == 0);
                    break;
                },
                Some(i) => {
                    assert(positions(done as int, n).len() > 0);
                    assert(i == done);
                    match (&values[i], &amounts[i]) {
                        (Some(Component::Value(vc)), Some(Component::Amount(ac))) => {
                            out.push(ValueAmountRow { entity_id: i, value: vc.value, amount: ac.amount });
                        },
                        _ => {},
                    }
                    done = done + 1;
                    assert(rows@ =~= positions(done as int, n));
                },
            }
        }
        out
    }

    /// Reads the counter and amount columns and reports the entities that have both.
    pub fn tick(&self, storage: &mut ComponentStorage) -> (r: Result<Vec<ValueAmountRow>, StorageError>)
        requires
            old(storage).wf(),
        ensures
            final(storage).wf(),
            final(storage)@ == old(storage)@,
            match read_fault(old(storage)@, ComponentKind::Value) {
                Some(e) => r == Err::<Vec<ValueAmountRow>, StorageError>(e),
                None => match read_fault(old(storage)@, ComponentKind::Amount) {
                    Some(e) => r == Err::<Vec<ValueAmountRow>, StorageError>(e),
                    None => r is Ok && r->Ok_0@ == value_amount_rows(
                        old(storage)@.slots(ComponentKind::Value),
                        old(storage)@.slots(ComponentKind::Amount),
                        old(storage)@.capacity as int,
                    ),
                },
            },
    {
        let values = storage.read_column(ComponentKind::Value)?;
        let amounts = storage.read_column(ComponentKind::Amount)?;
        Ok(self.rows(&values, &amounts))
    }
}

impl PrintPositionsSystem {
    /// The rows of present positions in `positions`, in entity order.
    pub fn rows(&self, positions: &Vec<Option<Component>>) -> (r: Vec<PositionRow>)
        ensures
            r@ == position_rows(positions@, positions@.len() as int),
    {
        let mut out: Vec<PositionRow> = Vec::new();
        let mut i: usize = 0;
        while i < positions.len()
            invariant
                i <= positions.len(),
                out@ == position_rows(positions@, i as int),
            decreases positions.len() - i,
        {
            match &positions[i] {
                Some(Component::Position(c)) => {
                    out.push(PositionRow { entity_id: i, position: c.value });
                },
                _ => {},
            }
            i = i + 1;
        }
        out
    }

    /// Reads the position column and reports its present values.
    pub fn tick(&self, storage: &mut ComponentStorage) -> (r: Result<Vec<PositionRow>, StorageError>)
        requires
            old(storage).wf(),
        ensures
            final(storage).wf(),
            final(storage)@ == old(storage)@,
            match read_fault(old(storage)@, ComponentKind::Position) {
                Some(e) => r == Err::<Vec<PositionRow>, StorageError>(e),
                None => r is Ok && r->Ok_0@ == storage_positions(old(storage)@),
            },
    {
        let slots = storage.read_column(ComponentKind::Position)?;
        Ok(self.rows(&slots))
    }
}

impl PrintStateSystem {
    /// The full entity states across four columns, walked in lockstep.
    pub fn rows(
        &self,
        p: &Vec<Option<Component>>,
        v: &Vec<Option<Component>>,
        a: &Vec<Option<Component>>,
        f: &Vec<Option<Component>>,
    ) -> (r: Vec<EntityState>)
        requires
            p.len() == v.len() && v.len() == a.len() && a.len() == f.len(),
        ensures
            r@ == state_rows(p@, v@, a@, f@, p@.len() as int),
    {
        let lens: Vec<usize> = vec![p.len(), v.len(), a.len(), f.len()];
        proof {
            assert(lens@ =~= seq![p.len(), v.len(), a.len(), f.len()]);
            assert(forall|i: int| 0 <= i < lens@.len() ==> #[trigger] lens@[i] == p.len());
            lemma_tuple_count(lens@, p.len());
        }
        let ghost n = p.len() as int;
        let mut rows = TupleIter::from(&lens);
        let mut out: Vec<EntityState> = Vec::new();
        let mut done: usize = 0;
        loop
            invariant
                rows@ == positions(done as int, n),
                0 <= done <= n,
                n == p.len(),
                p.len() == v.len() && v.len() == a.len() && a.len() == f.len(),
                out@ == state_rows(p@, v@, a@, f@, done as int),
            ensures
                done == n,
                out@ == state_rows(p@, v@, a@, f@, done as int),
            decreases n - done,
        {
            match rows.next() {
                None => {
                    assert(positions(done as int, n).len() == 0);
                    break;
                },
                Some(i) => {
                    assert(positions(done as int, n).len() > 0);
                    assert(i == done);
                    match (&p[i], &v[i], &a[i], &f[i]) {
                        (
                            Some(Component::Position(pc)),
                            Some(Component::Velocity(vc)),
                            Some(Component::Acceleration(ac)),
                            Some(Component::Friction(fc)),
                        ) => {
                            out.push(
                                EntityState {
                                    entity_id: i,
                                    position: pc.value,
                                    velocity: vc.value,
                                    acceleration: ac.value,
                                    friction: fc.value,
                                },
                            );
                        },
                        _ => {},
                    }
                    done = done + 1;
                    assert(rows@ =~= positions(done as int, n));
                },
            }
        }
        out
    }

    /// Reads the four motion columns and reports the entities that have all four.
    pub fn tick(&self, storage: &mut ComponentStorage) -> (r: Result<Vec<EntityState>, StorageError>)
        requires
            old(storage).wf(),
        ensures
            final(storage).wf(),
            final(storage)@ == old(storage)@,
            match state_fault(old(storage)@) {
                Some(e) => r == Err::<Vec<EntityState>, StorageError>(e),
                None => r is Ok && r->Ok_0@ == storage_states(old(storage)@),
            },
    {
        let p = storage.read_column(ComponentKind::Position)?;
        let v = storage.read_column(ComponentKind::Velocity)?;
        let a = storage.read_column(ComponentKind::Acceleration)?;
        let f = storage.read_column(ComponentKind::Friction)?;
        let rows = self.rows(&p, &v, &a, &f);
        Ok(rows)
    }
}

/// The first read fault among the four motion columns, if any.
pub open spec fn state_fault(s: StorageView) -> Option<StorageError> {
    if read_fault(s, ComponentKind::Position) is Some {
        read_fault(s, ComponentKind::Position)
    } else if read_fault(s, ComponentKind::Velocity) is Some {
        read_fault(s, ComponentKind::Velocity)
    } else if read_fault(s, ComponentKind::Acceleration) is Some {
        read_fault(s, ComponentKind::Acceleration)
    } else {
        read_fault(s, ComponentKind::Friction)
    }
}

/// The full entity states of a storage, in entity order.
pub open spec fn storage_states(s: StorageView) -> Seq<EntityState> {
    state_rows(
        s.slots(ComponentKind::Position),
        s.slots(ComponentKind::Velocity),
        s.slots(ComponentKind::Acceleration),
        s.slots(ComponentKind::Friction),
        s.capacity as int,
    )
}

/// The present positions of a storage, in entity order.
pub open spec fn storage_positions(s: StorageView) -> Seq<PositionRow> {
    position_rows(s.slots(ComponentKind::Position), s.capacity as int)
}

} // verus!
