//! Signature extraction, one module per source language.

pub mod cpp_parser;
pub mod rs_parser;
