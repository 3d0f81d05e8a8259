//! A small entity-component-system runtime: per-type component columns with
//! checked shared/exclusive access, lockstep row iteration over several
//! columns, and a fixed pipeline of systems run once per tick.

pub mod components;
pub mod dispatcher;
pub mod lock;
pub mod printers;
pub mod storage;
pub mod systems;
pub mod tuple_iter;
pub mod vector;
