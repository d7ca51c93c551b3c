//! Natural numbers built on the successor operation.
//!
//! `Nat` is the capability set: conversion to and from `u32`, zero, a zero
//! test and the successor, from which predecessor and addition are derived.
//! `U32Nat` is a representation of it backed by a `u32`.
pub mod laws;
pub mod peano;
pub mod u32_nat;

pub use peano::Nat;
pub use u32_nat::U32Nat;
