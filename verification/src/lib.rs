//! Game-facing logic of an in-process CS:GO helper: netvar offset tables,
//! signature scanning over module images, entity bookkeeping, input-button
//! flags and the decision rules of the bunny-hop and aim-assist modules.
//!
//! Everything that touches the game's memory, its virtual tables, the Lua
//! runtime or floating-point geometry lives in the companion application
//! crate; this crate holds the logic over plain values, with its contracts.

pub mod entry;
pub mod interfaces;
pub mod memory;
pub mod script_engine;
pub mod structs;
