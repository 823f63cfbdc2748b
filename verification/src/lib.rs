//! A PLONKish arithmetic circuit for the Fibonacci recurrence.
//!
//! The crate builds fully assigned witness tables for a circuit that proves
//! knowledge of a Fibonacci sequence whose two seeds and one later term are
//! public. Two interchangeable table layouts are provided: a single advice
//! column addressed by relative row offsets, and three advice columns with
//! one logical row per region. Finite-field arithmetic is delegated to the
//! `halo2_proofs` backend; everything that decides what goes where — the
//! recurrence, the selector pattern, the copy wiring and the public binding —
//! is verified here.

pub mod scalar;
pub mod fib;
pub mod semantics;
pub mod layout_single;
pub mod layout_multi;
pub mod circuit;
