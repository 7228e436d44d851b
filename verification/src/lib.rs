//! Dual-mode mutual-exclusion primitives for a system that starts in a
//! degraded bring-up phase — a single execution context, no atomic
//! read-modify-write instructions — and later switches, exactly once, to a
//! fully concurrent raw-atomic phase.
//!
//! [`gate`] holds the flag that records which phase is active; [`mutex`] is
//! a spin-based mutual-exclusion lock whose acquisition consults that flag;
//! [`rwlock`] is a reader/writer primitive over a single packed counter,
//! independent of the flag; and [`interleaving`] proves the exclusion
//! properties of the atomic algorithms over every admissible schedule of
//! concurrent steps.

pub mod gate;
pub mod interleaving;
pub mod mutex;
pub mod rwlock;
