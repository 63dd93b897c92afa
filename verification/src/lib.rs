//! A task lifecycle whose phase is part of the task's type, together with a
//! handful of small verified building blocks.

pub mod account;
pub mod arith;
pub mod back_of_house;
pub mod control_flow;
pub mod counter;
pub mod default_summary;
pub mod enums;
pub mod error_handling;
pub mod generics;
pub mod lifetimes;
pub mod ownership;
pub mod scan;
pub mod summary;
pub mod widgets;
pub mod workflow;
