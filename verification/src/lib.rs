//! Tooling for packaging simulation models as co-simulation plugins.
//!
//! A model is declared as a list of named, typed fields, each with a role,
//! an optional numeric value reference, a unit and a description.  From such
//! a declaration the crate
//!
//! * builds the ordered variable table and allocates value references
//!   ([`table`]),
//! * synthesizes the model-description document ([`markup`],
//!   [`description`]) and fills in start values ([`template`]),
//! * generates the definition of the model in one pass ([`generate`]),
//! * drives instances of the model through the co-simulation lifecycle
//!   behind opaque handles ([`runtime`], [`dispatch`], [`handles`], [`abi`]),
//! * lays out the distributable package and assembles its archive
//!   ([`package`]).
//!
//! Real values never appear as floating-point numbers here: they are carried
//! as the bit patterns of IEEE 754 doubles, or as the text that goes into a
//! document.
//!
//! The functions carry contracts, and the contracts are proved.  The calls
//! into `quick_xml`, `handlebars`, `serde_json`, `uuid` and `zip` are the
//! exception: their contracts, in [`xml`], [`template`], [`generate`] and
//! [`package`], are taken on trust.
#![allow(non_snake_case)]
#![allow(non_camel_case_types)]
#![allow(non_upper_case_globals)]

pub mod text;
pub mod model;
pub mod table;
pub mod xml;
pub mod markup;
pub mod description;
pub mod generate;
pub mod types;
pub mod runtime;
pub mod handles;
pub mod dispatch;
pub mod template;
pub mod package;
pub mod abi;
