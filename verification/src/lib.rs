//! Resource collection, placement policy and packaging for self-contained
//! Python binaries.
//!
//! A binary is built from a standalone Python distribution and from the
//! resources of an application. This library decides where every module,
//! data file and extension module lives at run time: embedded in the binary,
//! linked into the interpreter, or installed beside the binary. It collects
//! the resources under the places decided, and makes of them what the linker
//! and the installer need.
//!
//! Nothing here reads or writes files, archives or processes; what has to be
//! read is handed in, and what has to be done is handed back.

pub mod archive;
pub mod build_state;
pub mod collector;
pub mod embedded_resource;
pub mod error;
pub mod laws;
pub mod name_map;
pub mod paths;
pub mod policy;
pub mod python_json;
pub mod resource;
pub mod standalone_builder;
pub mod standalone_distribution;
pub mod string_set;
pub mod text;
