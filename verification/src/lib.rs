//! A small UI composition tree: nested layout containers and leaf widgets,
//! each carrying a unique identifier, with a textual graph export for
//! inspecting the assembled tree.
//!
//! - [`ids`] allocates node identifiers: unique and strictly increasing.
//! - [`tree`] holds the widgets, the `Element` wrapper, the `Layout`
//!   container, and the executable graph exporter.
//! - [`ui`] is the root object tying a canvas to one root layout.
//! - [`model`] is the ghost model the contracts speak of, including the
//!   exact specification of the exported text.
//! - [`laws`] states and proves the properties of the export.

pub mod ids;
pub mod laws;
pub mod model;
pub mod tree;
pub mod ui;
