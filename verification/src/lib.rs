//! The execution core of a small parametric-CAD scripting language: the
//! values a program computes, the memory that names them, the statement
//! rules, and the sketch operations with the geometry-engine commands that
//! each of them issues.
//!
//! The library calculates nothing in floating point and performs no I/O.
//! A host evaluates arithmetic, talks to the geometry engine, and hands the
//! library plain values; the library decides what every operation produces.

pub mod number;
pub mod source;
pub mod errors;
pub mod json;
pub mod ast;
pub mod geometry;
pub mod engine;
pub mod memory;
pub mod executor;
pub mod sketch;
pub mod args;
