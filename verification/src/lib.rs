//! A verified core for turning SVG markup trees into UI component
//! modules.
//!
//! The crate models JSX-shaped markup as pure algebraic datatypes and
//! implements the rewrite passes and the component synthesizer over
//! that model.  Every executable function is proved to compute exactly
//! the value of a corresponding specification function, and the laws
//! the passes obey — untouched elements stay byte-identical, the
//! title and description merges commute, name normalization is
//! idempotent, and the export shape is exact — are proved beside them.

pub mod add_jsx_attribute;
pub mod config;
pub mod list;
pub mod module;
pub mod remove_jsx_attribute;
pub mod remove_jsx_empty_expression;
pub mod replace_jsx_attribute_value;
pub mod svg_dynamic_title;
pub mod svg_em_dimensions;
pub mod svgr;
pub mod text;
pub mod transform_attribute;
pub mod transform_react_native_svg;
pub mod transform_svg_component;
pub mod tree;
