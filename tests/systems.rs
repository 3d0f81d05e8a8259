use ecs::components::{
    AccelerationComponent, AmountComponent, Component, ComponentKind, FrictionComponent,
    PositionComponent, ValueComponent, VelocityComponent,
};
use ecs::dispatcher::Dispatcher;
use ecs::printers::{
    EntityState, PositionRow, PrintPositionsSystem, PrintStateSystem, PrintSystem, ValueAmountRow,
    ValuePrintSystem, ValueRow,
};
use ecs::storage::{ComponentStorage, StorageError};
use ecs::systems::{
    AdderSystem, ApplyAccelerationSystem, ApplyFrictionSystem, ApplyVelocitySystem,
};
use ecs::tuple_iter::TupleIter;
use ecs::vector::{Vector2d, floor_sqrt};

fn count_rows(lens: Vec<usize>) -> usize {
    let mut rows = TupleIter::from(&lens);
    let mut n = 0;
    while rows.next().is_some() {
        n += 1;
    }
    assert_eq!(rows.next(), None);
    n
}

fn motion_storage(capacity: usize) -> ComponentStorage {
    let mut storage = ComponentStorage::new(capacity);
    storage.register_component_type(ComponentKind::Position).unwrap();
    storage.register_component_type(ComponentKind::Velocity).unwrap();
    storage.register_component_type(ComponentKind::Acceleration).unwrap();
    storage.register_component_type(ComponentKind::Friction).unwrap();
    storage
}

fn velocity_of(storage: &mut ComponentStorage, entity: usize) -> Vector2d {
    match storage.read_column(ComponentKind::Velocity).unwrap()[entity] {
        Some(Component::Velocity(v)) => v.value,
        _ => panic!("no velocity"),
    }
}

fn position_of(storage: &mut ComponentStorage, entity: usize) -> Vector2d {
    match storage.read_column(ComponentKind::Position).unwrap()[entity] {
        Some(Component::Position(p)) => p.value,
        _ => panic!("no position"),
    }
}

fn friction_result(x: i64, y: i64, amount: u64) -> Vector2d {
    let mut storage = motion_storage(1);
    storage.add_to_entity(0, Component::Velocity(VelocityComponent::new(x, y))).unwrap();
    storage.add_to_entity(0, Component::Friction(FrictionComponent::new(amount))).unwrap();
    ApplyFrictionSystem.tick(&mut storage).unwrap();
    velocity_of(&mut storage, 0)
}

#[test]
fn tuple_iteration_stops_at_shortest() {
    assert_eq!(count_rows(vec![3, 5, 4]), 3);
    assert_eq!(count_rows(vec![6, 6]), 6);
    assert_eq!(count_rows(vec![4, 0, 4]), 0);
    assert_eq!(count_rows(vec![0]), 0);
    assert_eq!(count_rows(vec![]), 0);
}

#[test]
fn tuple_iteration_yields_positions_in_order() {
    let mut rows = TupleIter::from(&vec![2, 9]);
    assert_eq!(rows.next(), Some(0));
    assert_eq!(rows.next(), Some(1));
    assert_eq!(rows.next(), None);
    assert_eq!(rows.next(), None);
}

#[test]
fn acceleration_is_added_to_velocity() {
    let mut storage = motion_storage(1);
    storage.add_to_entity(0, Component::Velocity(VelocityComponent::new(1, 2))).unwrap();
    storage
        .add_to_entity(0, Component::Acceleration(AccelerationComponent::new(3, 4)))
        .unwrap();
    assert_eq!(ApplyAccelerationSystem.tick(&mut storage), Ok(()));
    assert_eq!(velocity_of(&mut storage, 0), Vector2d { x: 4, y: 6 });
}

#[test]
fn acceleration_skips_entities_missing_a_component() {
    let mut storage = motion_storage(2);
    storage.add_to_entity(0, Component::Velocity(VelocityComponent::new(1, 1))).unwrap();
    storage.add_to_entity(1, Component::Velocity(VelocityComponent::new(5, 5))).unwrap();
    storage
        .add_to_entity(0, Component::Acceleration(AccelerationComponent::new(2, 3)))
        .unwrap();
    ApplyAccelerationSystem.tick(&mut storage).unwrap();
    assert_eq!(velocity_of(&mut storage, 0), Vector2d { x: 3, y: 4 });
    assert_eq!(velocity_of(&mut storage, 1), Vector2d { x: 5, y: 5 });
}

#[test]
fn acceleration_overflow_changes_nothing() {
    let mut storage = motion_storage(2);
    storage.add_to_entity(0, Component::Velocity(VelocityComponent::new(1, 1))).unwrap();
    storage.add_to_entity(1, Component::Velocity(VelocityComponent::new(i64::MAX, 0))).unwrap();
    storage
        .add_to_entity(0, Component::Acceleration(AccelerationComponent::new(1, 1)))
        .unwrap();
    storage
        .add_to_entity(1, Component::Acceleration(AccelerationComponent::new(1, 0)))
        .unwrap();
    assert_eq!(
        ApplyAccelerationSystem.tick(&mut storage),
        Err(StorageError::ArithmeticOverflow { kind: ComponentKind::Velocity, entity_id: 1 })
    );
    assert_eq!(velocity_of(&mut storage, 0), Vector2d { x: 1, y: 1 });
    assert!(storage.fetch_mut(ComponentKind::Velocity).is_ok());
}

#[test]
fn friction_reduces_speed_toward_zero() {
    assert_eq!(friction_result(10, 0, 3), Vector2d { x: 7, y: 0 });
    assert_eq!(friction_result(-10, 0, 3), Vector2d { x: -7, y: 0 });
    assert_eq!(friction_result(0, 8, 2), Vector2d { x: 0, y: 6 });
}

#[test]
fn friction_clamps_at_zero() {
    assert_eq!(friction_result(2, 0, 5), Vector2d { x: 0, y: 0 });
    assert_eq!(friction_result(3, -4, 5), Vector2d { x: 0, y: 0 });
}

#[test]
fn friction_splits_along_direction() {
    // length 5: friction 10 takes 6 from x and 8 from y
    assert_eq!(friction_result(30, -40, 10), Vector2d { x: 24, y: -32 });
}

#[test]
fn friction_leaves_zero_velocity_unchanged() {
    assert_eq!(friction_result(0, 0, 7), Vector2d { x: 0, y: 0 });
    assert_eq!(friction_result(0, 0, u64::MAX), Vector2d { x: 0, y: 0 });
}

#[test]
fn friction_handles_extreme_coordinates() {
    let v = friction_result(i64::MIN, i64::MIN, 0);
    assert_eq!(v, Vector2d { x: i64::MIN, y: i64::MIN });
    let w = friction_result(i64::MIN, 0, 1);
    assert_eq!(w, Vector2d { x: i64::MIN + 1, y: 0 });
}

#[test]
fn velocity_moves_position() {
    let mut storage = motion_storage(1);
    storage.add_to_entity(0, Component::Position(PositionComponent::new(-2, 5))).unwrap();
    storage.add_to_entity(0, Component::Velocity(VelocityComponent::new(3, -1))).unwrap();
    assert_eq!(ApplyVelocitySystem.tick(&mut storage), Ok(()));
    assert_eq!(position_of(&mut storage, 0), Vector2d { x: 1, y: 4 });
}

#[test]
fn system_on_unregistered_kind_fails() {
    let mut storage = ComponentStorage::new(1);
    storage.register_component_type(ComponentKind::Velocity).unwrap();
    assert_eq!(
        ApplyAccelerationSystem.tick(&mut storage),
        Err(StorageError::UnknownComponentType(ComponentKind::Acceleration))
    );
    assert!(storage.fetch_mut(ComponentKind::Velocity).is_ok());
}

#[test]
fn adder_adds_amounts() {
    let mut storage = ComponentStorage::new(2);
    storage.register_component_type(ComponentKind::Value).unwrap();
    storage.register_component_type(ComponentKind::Amount).unwrap();
    storage.add_to_entity(0, Component::Value(ValueComponent { value: 5 })).unwrap();
    storage.add_to_entity(0, Component::Amount(AmountComponent { amount: 3 })).unwrap();
    storage.add_to_entity(1, Component::Value(ValueComponent { value: i32::MAX })).unwrap();
    assert_eq!(AdderSystem.tick(&mut storage), Ok(()));
    assert_eq!(
        storage.read_column(ComponentKind::Value).unwrap(),
        vec![
            Some(Component::Value(ValueComponent { value: 8 })),
            Some(Component::Value(ValueComponent { value: i32::MAX })),
        ]
    );
    storage.add_to_entity(1, Component::Amount(AmountComponent { amount: 1 })).unwrap();
    assert_eq!(
        AdderSystem.tick(&mut storage),
        Err(StorageError::ArithmeticOverflow { kind: ComponentKind::Value, entity_id: 1 })
    );
}

#[test]
fn full_pipeline_two_ticks() {
    let mut storage = motion_storage(1);
    storage.add_to_entity(0, Component::Position(PositionComponent::new(0, 0))).unwrap();
    storage.add_to_entity(0, Component::Velocity(VelocityComponent::new(1, 0))).unwrap();
    storage
        .add_to_entity(0, Component::Acceleration(AccelerationComponent::new(0, 0)))
        .unwrap();
    storage.add_to_entity(0, Component::Friction(FrictionComponent::new(0))).unwrap();
    let dispatcher = Dispatcher::new();
    let first = dispatcher.dispatch(&mut storage).unwrap();
    assert_eq!(
        first.positions,
        vec![PositionRow { entity_id: 0, position: Vector2d { x: 1, y: 0 } }]
    );
    assert_eq!(first.before.len(), 1);
    assert_eq!(first.before[0].position, Vector2d { x: 0, y: 0 });
    let second = dispatcher.dispatch(&mut storage).unwrap();
    assert_eq!(
        second.positions,
        vec![PositionRow { entity_id: 0, position: Vector2d { x: 2, y: 0 } }]
    );
    assert_eq!(position_of(&mut storage, 0), Vector2d { x: 2, y: 0 });
}

#[test]
fn pipeline_applies_systems_in_order() {
    let mut storage = motion_storage(1);
    storage.add_to_entity(0, Component::Position(PositionComponent::new(0, 0))).unwrap();
    storage.add_to_entity(0, Component::Velocity(VelocityComponent::new(8, 0))).unwrap();
    storage
        .add_to_entity(0, Component::Acceleration(AccelerationComponent::new(2, 0)))
        .unwrap();
    storage.add_to_entity(0, Component::Friction(FrictionComponent::new(4))).unwrap();
    let report = Dispatcher::new().dispatch(&mut storage).unwrap();
    // velocity 8 + 2 = 10, friction leaves 6, position moves by 6
    assert_eq!(velocity_of(&mut storage, 0), Vector2d { x: 6, y: 0 });
    assert_eq!(
        report.positions,
        vec![PositionRow { entity_id: 0, position: Vector2d { x: 6, y: 0 } }]
    );
    assert_eq!(
        report.before,
        vec![EntityState {
            entity_id: 0,
            position: Vector2d { x: 0, y: 0 },
            velocity: Vector2d { x: 8, y: 0 },
            acceleration: Vector2d { x: 2, y: 0 },
            friction: 4,
        }]
    );
}

#[test]
fn pipeline_without_friction_column_fails_before_updating() {
    let mut storage = ComponentStorage::new(1);
    storage.register_component_type(ComponentKind::Position).unwrap();
    storage.register_component_type(ComponentKind::Velocity).unwrap();
    storage.register_component_type(ComponentKind::Acceleration).unwrap();
    storage.add_to_entity(0, Component::Position(PositionComponent::new(0, 0))).unwrap();
    storage.add_to_entity(0, Component::Velocity(VelocityComponent::new(1, 0))).unwrap();
    let result = Dispatcher::new().dispatch(&mut storage);
    assert_eq!(
        result.err(),
        Some(StorageError::UnknownComponentType(ComponentKind::Friction))
    );
    assert_eq!(position_of(&mut storage, 0), Vector2d { x: 0, y: 0 });
}

#[test]
fn state_report_lists_complete_entities() {
    let mut storage = motion_storage(3);
    for id in 0..3 {
        storage
            .add_to_entity(id, Component::Position(PositionComponent::new(id as i64, 0)))
            .unwrap();
        storage.add_to_entity(id, Component::Friction(FrictionComponent::new(1))).unwrap();
        storage
            .add_to_entity(id, Component::Acceleration(AccelerationComponent::new(0, 1)))
            .unwrap();
    }
    storage.add_to_entity(0, Component::Velocity(VelocityComponent::new(1, 1))).unwrap();
    storage.add_to_entity(2, Component::Velocity(VelocityComponent::new(2, 2))).unwrap();
    let rows = PrintStateSystem.tick(&mut storage).unwrap();
    assert_eq!(rows.len(), 2);
    assert_eq!(rows[0].entity_id, 0);
    assert_eq!(rows[1].entity_id, 2);
    assert_eq!(rows[1].velocity, Vector2d { x: 2, y: 2 });
    let positions = PrintPositionsSystem.tick(&mut storage).unwrap();
    assert_eq!(positions.len(), 3);
    assert_eq!(positions[2].position, Vector2d { x: 2, y: 0 });
}

#[test]
fn floor_sqrt_values() {
    assert_eq!(floor_sqrt(0), 0);
    assert_eq!(floor_sqrt(1), 1);
    assert_eq!(floor_sqrt(24), 4);
    assert_eq!(floor_sqrt(25), 5);
    assert_eq!(floor_sqrt(u128::MAX), u64::MAX);
}

#[test]
fn vector_arithmetic() {
    let a = Vector2d::new(3, -4);
    assert_eq!(a.length_squared(), 25);
    assert_eq!(a.add(&Vector2d::new(1, 1)), Vector2d { x: 4, y: -3 });
    assert!(!Vector2d::new(i64::MAX, 0).can_add(&Vector2d::new(1, 0)));
    assert_eq!(Vector2d::new(i64::MIN, i64::MIN).length_squared(), 1u128 << 127);
}

#[test]
fn value_printers_report_values() {
    let mut storage = ComponentStorage::new(3);
    storage.register_component_type(ComponentKind::Value).unwrap();
    storage.register_component_type(ComponentKind::Amount).unwrap();
    storage.add_to_entity(0, Component::Value(ValueComponent { value: 1 })).unwrap();
    storage.add_to_entity(2, Component::Value(ValueComponent { value: -4 })).unwrap();
    storage.add_to_entity(2, Component::Amount(AmountComponent { amount: 10 })).unwrap();
    assert_eq!(
        ValuePrintSystem.tick(&mut storage).unwrap(),
        vec![ValueRow { entity_id: 0, value: 1 }, ValueRow { entity_id: 2, value: -4 }]
    );
    assert_eq!(
        PrintSystem.tick(&mut storage).unwrap(),
        vec![ValueAmountRow { entity_id: 2, value: -4, amount: 10 }]
    );
    AdderSystem.tick(&mut storage).unwrap();
    assert_eq!(
        ValuePrintSystem.tick(&mut storage).unwrap(),
        vec![ValueRow { entity_id: 0, value: 1 }, ValueRow { entity_id: 2, value: 6 }]
    );
}
