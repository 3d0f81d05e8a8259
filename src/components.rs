//! The component records, and the tagged union that a column stores them in.

use vstd::prelude::*;
use crate::vector::Vector2d;

verus! {

/// Where an entity is.
#[derive(Clone, Copy, Debug, PartialEq, Eq, Structural)]
pub struct PositionComponent {
    pub value: Vector2d,
}

/// How far an entity moves per tick.
#[derive(Clone, Copy, Debug, PartialEq, Eq, Structural)]
pub struct VelocityComponent {
    pub value: Vector2d,
}

/// How much an entity's velocity changes per tick.
#[derive(Clone, Copy, Debug, PartialEq, Eq, Structural)]
pub struct AccelerationComponent {
    pub value: Vector2d,
}

/// How strongly an entity's velocity decays per tick.
#[derive(Clone, Copy, Debug, PartialEq, Eq, Structural)]
pub struct FrictionComponent {
    pub value: u64,
}

/// A plain counter value.
#[derive(Clone, Copy, Debug, PartialEq, Eq, Structural)]
pub struct ValueComponent {
    pub value: i32,
}

/// How much a counter value grows per tick.
#[derive(Clone, Copy, Debug, PartialEq, Eq, Structural)]
pub struct AmountComponent {
    pub amount: i32,
}

/// The identity of a component type: the key of a column in the storage.
#[derive(Clone, Copy, Debug, PartialEq, Eq, Structural)]
pub enum ComponentKind {
    Position,
    Velocity,
    Acceleration,
    Friction,
    Value,
    Amount,
}

/// Number of component kinds.
pub const KIND_COUNT: usize = 6;

impl ComponentKind {
    /// The slot of this kind in the storage's column table.
    pub open spec fn spec_index(self) -> int {
        match self {
            ComponentKind::Position => 0,
            ComponentKind::Velocity => 1,
            ComponentKind::Acceleration => 2,
            ComponentKind::Friction => 3,
            ComponentKind::Value => 4,
            ComponentKind::Amount => 5,
        }
    }

    pub fn index(&self) -> (r: usize)
        ensures
            r == self.spec_index(),
            r < KIND_COUNT,
    {
        match self {
            ComponentKind::Position => 0,
            ComponentKind::Velocity => 1,
            ComponentKind::Acceleration => 2,
            ComponentKind::Friction => 3,
            ComponentKind::Value => 4,
            ComponentKind::Amount => 5,
        }
    }
}

/// Distinct kinds occupy distinct slots.
pub proof fn lemma_index_injective(a: ComponentKind, b: ComponentKind)
    ensures
        a.spec_index() == b.spec_index() <==> a == b,
{
}

/// One component value of any kind, as a column holds it.
#[derive(Clone, Copy, Debug, PartialEq, Eq, Structural)]
pub enum Component {
    Position(PositionComponent),
    Velocity(VelocityComponent),
    Acceleration(AccelerationComponent),
    Friction(FrictionComponent),
    Value(ValueComponent),
    Amount(AmountComponent),
}

impl Component {
    pub open spec fn spec_kind(self) -> ComponentKind {
        match self {
            Component::Position(_) => ComponentKind::Position,
            Component::Velocity(_) => ComponentKind::Velocity,
            Component::Acceleration(_) => ComponentKind::Acceleration,
            Component::Friction(_) => ComponentKind::Friction,
            Component::Value(_) => ComponentKind::Value,
            Component::Amount(_) => ComponentKind::Amount,
        }
    }

    /// The kind of this value.
    pub fn kind(&self) -> (r: ComponentKind)
        ensures
            r == self.spec_kind(),
    {
        match self {
            Component::Position(_) => ComponentKind::Position,
            Component::Velocity(_) => ComponentKind::Velocity,
            Component::Acceleration(_) => ComponentKind::Acceleration,
            Component::Friction(_) => ComponentKind::Friction,
            Component::Value(_) => ComponentKind::Value,
            Component::Amount(_) => ComponentKind::Amount,
        }
    }
}

/// Every occupied slot holds a value of kind `k`.
pub open spec fn slots_of_kind(slots: Seq<Option<Component>>, k: ComponentKind) -> bool {
    forall|i: int| 0 <= i < slots.len() && (#[trigger] slots[i]) is Some ==> slots[i]->0.spec_kind() == k
}

impl PositionComponent {
    pub fn new(x: i64, y: i64) -> (r: PositionComponent)
        ensures
            r.value == (Vector2d { x, y }),
    {
        PositionComponent { value: Vector2d::new(x, y) }
    }
}

impl VelocityComponent {
    pub fn new(x: i64, y: i64) -> (r: VelocityComponent)
        ensures
            r.value == (Vector2d { x, y }),
    {
        VelocityComponent { value: Vector2d::new(x, y) }
    }
}

impl AccelerationComponent {
    pub fn new(x: i64, y: i64) -> (r: AccelerationComponent)
        ensures
            r.value == (Vector2d { x, y }),
    {
        AccelerationComponent { value: Vector2d::new(x, y) }
    }
}

impl FrictionComponent {
    pub fn new(value: u64) -> (r: FrictionComponent)
        ensures
            r.value == value,
    {
        FrictionComponent { value }
    }
}

} // verus!
