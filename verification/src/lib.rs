//! Generation of cross-language call bindings from exported function
//! signatures.

pub mod codegen;
pub mod codegens;
pub mod parser;
pub mod parsers;
pub mod syntax;
pub mod template;
pub mod text;
pub mod types;
pub mod utils;
pub mod warning;
