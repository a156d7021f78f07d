//! Text generation, one module per target language.

pub mod cpp_codegen;
pub mod rs_codegen;
