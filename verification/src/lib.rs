//! A CHIP-8 virtual machine, verified.
//!
//! - [`machine`] is the mathematical model: the state of the machine and the
//!   effect of every instruction on it.
//! - [`instruction`] holds the instruction set and its decoder.
//! - [`cpu`] is the interpreter core, specified against the model.
//! - [`laws`] proves what holds of every state and every instruction.
//! - [`display`], [`input`] and [`sound`] are the adapters between the core
//!   and a host, and [`driver`] is one turn of the loop that couples them.
//! - [`rng`] states what is taken on trust about the random generator.

pub mod cpu;
pub mod display;
pub mod driver;
pub mod input;
pub mod instruction;
pub mod laws;
pub mod machine;
pub mod rng;
pub mod sound;
