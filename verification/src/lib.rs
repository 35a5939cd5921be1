//! Build script support for Rust code with embedded C++.
//!
//! A crate may hold C++ in its Rust sources: closures whose bodies are C++, classes, and verbatim
//! snippets. This library generates the C++ source for such declarations ([`generate`]), holds the
//! configuration of the compiler that turns it into a static library ([`config`]), and decides on
//! the course of a build ([`course`]). Reading the crate, writing files and running the compiler
//! are left to the caller.
//!
//! The modules named `.._laws` state what holds of all inputs, over the models that the contracts
//! of the functions use.

pub mod cc_build;
pub mod config;
pub mod config_laws;
pub mod course;
pub mod course_laws;
pub mod declarations;
pub mod generate;
pub mod generate_laws;
pub mod model_laws;
pub mod source_laws;
pub mod templates;
pub mod text;
pub mod text_laws;
pub mod warning;

pub use config::Config;
pub use course::build;
