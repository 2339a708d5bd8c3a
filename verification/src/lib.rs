//! Instruction execution core for an 8-bit CPU of the classic handheld
//! game-console family: a register file with composed 16-bit pair views,
//! a codec between the structured flag record and its packed byte form,
//! and an execution engine that applies one decoded instruction to the
//! register file with exact flag semantics.

pub mod registers;

pub mod instruction;

pub mod cpu;
