//! Core state machine for an item-cycling HUD: each of four equip slots
//! (left hand, right hand, power, utility) keeps an ordered, duplicate-free
//! rotation of favorited items. The controller turns classified input events
//! into cycle rotations, membership toggles, and response values that tell
//! the host layer which timers to manage and which commands to run.

pub mod action;
pub mod control;
pub mod cycles;
pub mod entry;
pub mod magic;
