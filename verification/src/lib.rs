//! A typed CSS value model with selector matching, cascade ordering, and
//! inheritance resolution over caller-supplied document trees.
//!
//! A caller parses stylesheets into a registry (`select::SelectCtx`), asks for
//! the raw per-property match result of one node (`select::SelectCtx::select_style`,
//! reached through the `select::SelectHandler` adapter), and then composes the
//! results along the node's ancestor chain (`complete::CompleteSelectResults`)
//! to obtain fully resolved property values in which the `inherit` keyword
//! never escapes past the document root.

pub mod color;
pub mod complete;
pub mod computed;
pub mod error;
pub mod parse;
pub mod select;
pub mod stylesheet;
pub mod types;
pub mod units;
pub mod values;
