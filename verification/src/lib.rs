//! Generator of safe-language bindings for C++ declarations.
//!
//! The crate consumes an intermediate representation (IR) of C++
//! declarations — records, fields, functions, special member functions and
//! unsupported items — and emits two text artifacts: a Rust binding module
//! and a C++ companion translation unit holding `extern "C"` thunks.

pub mod category;
pub mod diag;
pub mod emit_funcs;
pub mod emit_records;
pub mod emit_special;
pub mod ident;
pub mod ir;
pub mod laws;
pub mod plan;
pub mod src_code_gen;
pub mod strfmt;
pub mod thunks;
pub mod types;
