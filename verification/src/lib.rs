//! A functional simulator for a small Y86-64-style instruction set: a byte
//! codec for the instruction set (`isa`) and an execution core (`cpu`) that
//! interprets a fixed-size program image one instruction at a time.

pub mod cpu;
pub mod isa;
