//! A verified file-sorting library.
//!
//! Files are classified by their extension against a fixed table of
//! `(extension, category, optional alternate name, optional sort directory)`
//! records. The core is the path resolver, which maps an extension, a
//! nesting level and an alternate-naming flag to a relative destination
//! path. Around it stand pure planning and formatting helpers for the
//! mover, the logger and the benchmark harness; the I/O itself lives in
//! the accompanying binary.

pub mod bench;
pub mod plan;
pub mod resolve;
pub mod table;
pub mod textfmt;

pub use crate::bench::BenchmarkDecision;
pub use crate::bench::benchmark_decision;
pub use crate::bench::create_file_plan;
pub use crate::bench::random_extension;
pub use crate::plan::FileEntry;
pub use crate::plan::MovePlan;
pub use crate::plan::plan_custom_sort;
pub use crate::plan::plan_sort;
pub use crate::resolve::get_subdir_by_extension;
pub use crate::table::ExtensionRecord;
pub use crate::table::extension_table;
pub use crate::table::lookup;
pub use crate::table::str_eq;
