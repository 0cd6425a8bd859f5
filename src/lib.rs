//! Accessor synthesis for annotated structure fields: for each field and each
//! accessor kind, decides whether a method is emitted, its name, its
//! visibility and its shape, and models what the emitted methods do.

pub mod mode;
pub mod text;
pub mod types;
pub mod directive;
pub mod generate;
pub mod instance;
pub mod laws;
