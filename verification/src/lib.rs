//! Synthesis of the static metadata records that a foreign object runtime's
//! loader consumes: compact type-encoding strings and stack-frame layouts for
//! method signatures, counted method tables, nested class/metaclass records,
//! and anonymous category records, together with the exact symbol names and
//! section placements the loader scans for.
//!
//! Everything here is computed from plain descriptor values; no record is
//! ever executed.  Emitted constants are modelled symbolically: a pointer
//! field holds the name of the symbol it will be resolved to, tagged with how
//! the linker resolves it (defined here, external, or a weak alias).

pub mod category;
pub mod class_record;
pub mod descriptor;
pub mod encode;
pub mod foundation;
pub mod method_table;
pub mod records;
pub mod resolver;
pub mod symbols;
pub mod synthesis;
pub mod text;
pub mod type_encoding;
