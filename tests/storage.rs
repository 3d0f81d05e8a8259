use ecs::components::{
    AccelerationComponent, AmountComponent, Component, ComponentKind, FrictionComponent,
    PositionComponent, ValueComponent, VelocityComponent,
};
use ecs::lock::{AccessLock, ClaimFault};
use ecs::storage::{ComponentStorage, StorageError};

fn slots(storage: &mut ComponentStorage, kind: ComponentKind) -> Vec<Option<Component>> {
    let claim = storage.fetch_ref(kind).unwrap();
    let copy = claim.iterate(storage).clone();
    storage.release_read(claim);
    copy
}

#[test]
fn register_twice_fails() {
    let mut storage = ComponentStorage::new(4);
    assert_eq!(storage.register_component_type(ComponentKind::Position), Ok(()));
    assert_eq!(
        storage.register_component_type(ComponentKind::Position),
        Err(StorageError::AlreadyRegistered(ComponentKind::Position))
    );
    assert!(storage.is_registered(ComponentKind::Position));
    assert!(!storage.is_registered(ComponentKind::Velocity));
}

#[test]
fn registered_column_starts_empty() {
    let mut storage = ComponentStorage::new(3);
    storage.register_component_type(ComponentKind::Velocity).unwrap();
    assert_eq!(storage.capacity(), 3);
    assert_eq!(slots(&mut storage, ComponentKind::Velocity), vec![None, None, None]);
}

#[test]
fn fetch_unregistered_fails_for_every_kind() {
    let kinds = [
        ComponentKind::Position,
        ComponentKind::Velocity,
        ComponentKind::Acceleration,
        ComponentKind::Friction,
        ComponentKind::Value,
        ComponentKind::Amount,
    ];
    let mut storage = ComponentStorage::new(2);
    for kind in kinds {
        assert_eq!(storage.fetch_ref(kind).err(), Some(StorageError::UnknownComponentType(kind)));
        assert_eq!(storage.fetch_mut(kind).err(), Some(StorageError::UnknownComponentType(kind)));
        assert_eq!(storage.read_column(kind), Err(StorageError::UnknownComponentType(kind)));
    }
}

#[test]
fn fetch_returns_the_registered_kind() {
    let mut storage = ComponentStorage::new(2);
    storage.register_component_type(ComponentKind::Position).unwrap();
    storage.register_component_type(ComponentKind::Friction).unwrap();
    storage
        .add_to_entity(1, Component::Position(PositionComponent::new(3, 4)))
        .unwrap();
    storage
        .add_to_entity(0, Component::Friction(FrictionComponent::new(9)))
        .unwrap();
    let positions = slots(&mut storage, ComponentKind::Position);
    assert_eq!(positions, vec![None, Some(Component::Position(PositionComponent::new(3, 4)))]);
    let frictions = slots(&mut storage, ComponentKind::Friction);
    assert_eq!(frictions, vec![Some(Component::Friction(FrictionComponent::new(9))), None]);
    for slot in positions.iter().flatten() {
        assert_eq!(slot.kind(), ComponentKind::Position);
    }
}

#[test]
fn readers_share_and_writer_excludes() {
    let mut storage = ComponentStorage::new(1);
    storage.register_component_type(ComponentKind::Value).unwrap();
    let first = storage.fetch_ref(ComponentKind::Value).unwrap();
    let second = storage.fetch_ref(ComponentKind::Value).unwrap();
    assert_eq!(
        storage.fetch_mut(ComponentKind::Value).err(),
        Some(StorageError::Contention(ComponentKind::Value))
    );
    storage.release_read(first);
    assert_eq!(
        storage.fetch_mut(ComponentKind::Value).err(),
        Some(StorageError::Contention(ComponentKind::Value))
    );
    storage.release_read(second);
    let writer = storage.fetch_mut(ComponentKind::Value).unwrap();
    assert_eq!(writer.kind(), ComponentKind::Value);
    assert_eq!(
        storage.fetch_ref(ComponentKind::Value).err(),
        Some(StorageError::Contention(ComponentKind::Value))
    );
    assert_eq!(
        storage.fetch_mut(ComponentKind::Value).err(),
        Some(StorageError::Contention(ComponentKind::Value))
    );
    assert_eq!(
        storage.add_to_entity(0, Component::Value(ValueComponent { value: 1 })),
        Err(StorageError::Contention(ComponentKind::Value))
    );
    storage.release_write(writer);
    assert!(storage.fetch_ref(ComponentKind::Value).is_ok());
}

#[test]
fn write_claim_updates_in_place() {
    let mut storage = ComponentStorage::new(2);
    storage.register_component_type(ComponentKind::Amount).unwrap();
    let mut writer = storage.fetch_mut(ComponentKind::Amount).unwrap();
    writer.iterate()[1] = Some(Component::Amount(AmountComponent { amount: 7 }));
    storage.release_write(writer);
    assert_eq!(
        slots(&mut storage, ComponentKind::Amount),
        vec![None, Some(Component::Amount(AmountComponent { amount: 7 }))]
    );
}

#[test]
fn lock_claim_sequence() {
    let mut lock = AccessLock::new();
    assert_eq!(lock.claim_read(), Ok(()));
    assert_eq!(lock.claim_read(), Ok(()));
    assert_eq!(lock.claim_write(), Err(ClaimFault::Contention));
    lock.release_read();
    lock.release_read();
    assert!(lock.is_free_now());
    assert_eq!(lock.claim_write(), Ok(()));
    assert_eq!(lock.claim_write(), Err(ClaimFault::Contention));
    assert_eq!(lock.claim_read(), Err(ClaimFault::Contention));
    lock.release_write();
    assert_eq!(lock.claim_read(), Ok(()));
    assert_eq!(lock, AccessLock { readers: 1, writer: false });
}

#[test]
fn lock_reader_limit() {
    let mut lock = AccessLock { readers: usize::MAX, writer: false };
    assert_eq!(lock.claim_read(), Err(ClaimFault::TooManyReaders));
    assert_eq!(lock.readers, usize::MAX);
}

#[test]
fn duplicate_insertion_into_same_entity_fails() {
    let mut storage = ComponentStorage::new(4);
    storage.register_component_type(ComponentKind::Position).unwrap();
    assert_eq!(
        storage.add_to_entity(0, Component::Position(PositionComponent::new(0, 0))),
        Ok(())
    );
    assert_eq!(
        storage.add_to_entity(0, Component::Position(PositionComponent::new(5, 5))),
        Err(StorageError::DuplicateComponent { kind: ComponentKind::Position, entity_id: 0 })
    );
    assert_eq!(
        storage.add_to_entity(1, Component::Position(PositionComponent::new(-42, -42))),
        Ok(())
    );
    assert_eq!(
        storage.add_to_entity(3, Component::Position(PositionComponent::new(6, 9))),
        Ok(())
    );
    assert_eq!(
        slots(&mut storage, ComponentKind::Position),
        vec![
            Some(Component::Position(PositionComponent::new(0, 0))),
            Some(Component::Position(PositionComponent::new(-42, -42))),
            None,
            Some(Component::Position(PositionComponent::new(6, 9))),
        ]
    );
}

#[test]
fn insertion_out_of_range_fails() {
    let mut storage = ComponentStorage::new(2);
    storage.register_component_type(ComponentKind::Velocity).unwrap();
    assert_eq!(
        storage.add_to_entity(2, Component::Velocity(VelocityComponent::new(1, 1))),
        Err(StorageError::IndexOutOfRange { kind: ComponentKind::Velocity, entity_id: 2 })
    );
}

#[test]
fn insertion_of_unregistered_kind_fails() {
    let mut storage = ComponentStorage::new(2);
    assert_eq!(
        storage.add_to_entity(0, Component::Acceleration(AccelerationComponent::new(1, 1))),
        Err(StorageError::UnknownComponentType(ComponentKind::Acceleration))
    );
}
