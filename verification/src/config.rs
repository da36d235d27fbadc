//! The configuration record: the single source of truth for one run of
//! the pipeline, with the documented defaults of every optional field,
//! and the two fatal configuration errors.

use vstd::prelude::*;

use crate::list::List;
use crate::text::{list_of, text, Text};

verus! {

/// The shape of the module's export.
#[derive(Debug, PartialEq, Eq)]
pub enum ExportType {
    Named,
    Default,
}

/// Whether and where a catch-all rest-props parameter is added.
#[derive(Debug, PartialEq, Eq)]
pub enum ExpandProps {
    Start,
    End,
    Boolean(bool),
}

/// The JSX runtime flavor; the automatic runtime needs no base import.
#[derive(Debug, PartialEq, Eq)]
pub enum JSXRuntime {
    Automatic,
    Classic,
}

/// How the base framework import is written.  Exactly one of the three
/// specifier fields must be set when the import is needed.
#[derive(Debug, PartialEq, Eq)]
pub struct JSXRuntimeImport {
    pub source: Text,
    pub namespace: Option<Text>,
    pub default_specifier: Option<Text>,
    pub specifiers: Option<List<Text>>,
}

/// What the caller hands through: a source fragment to append verbatim
/// after the named export.
#[derive(Debug, PartialEq, Eq)]
pub struct Caller {
    pub previous_export: Text,
}

/// Naming metadata for the generated component.
#[derive(Debug, PartialEq, Eq)]
pub struct State {
    pub component_name: Text,
    pub caller: Caller,
}

/// The full configuration of the component synthesizer.
#[derive(Debug, PartialEq, Eq)]
pub struct Config {
    pub typescript: bool,
    pub title_prop: bool,
    pub desc_prop: bool,
    pub expand_props: ExpandProps,
    pub forward_ref: bool,
    pub state: State,
    pub native: bool,
    pub memo: bool,
    pub export_type: ExportType,
    pub named_export: Text,
    pub jsx_runtime: Option<JSXRuntime>,
    pub jsx_runtime_import: JSXRuntimeImport,
    pub import_source: Text,
}

/// The two fatal configuration errors: every other misconfiguration is
/// simply a run that rewrites nothing.
#[derive(Debug, PartialEq, Eq)]
pub enum ConfigError {
    /// A named export was requested with an empty export name.
    NamedExportEmpty,
    /// The base import was needed but none of its specifier forms was set.
    JsxRuntimeImportUnspecified,
}

impl ConfigError {
    /// The error text, as the host reports it.
    pub fn message(&self) -> (r: String)
        ensures
            (*self == ConfigError::NamedExportEmpty ==> r@ == "\"namedExport\" not specified"@)
                && (*self == ConfigError::JsxRuntimeImportUnspecified ==> r@
                == "Specify \"namespace\", \"defaultSpecifier\", or \"specifiers\" in \"jsxRuntimeImport\" option"@),
    {
        match self {
            ConfigError::NamedExportEmpty => String::from_str("\"namedExport\" not specified"),
            ConfigError::JsxRuntimeImportUnspecified => String::from_str(
                "Specify \"namespace\", \"defaultSpecifier\", or \"specifiers\" in \"jsxRuntimeImport\" option",
            ),
        }
    }
}

/// The default of every boolean switch.
pub fn false_by_default() -> (r: bool)
    ensures
        r == false,
{
    false
}

/// The default import source: the base framework package.
pub fn default_import_source() -> (r: Text)
    ensures
        r == list_of("react"@),
{
    text("react")
}

/// The default named-export identifier.
pub fn default_named_export() -> (r: Text)
    ensures
        r == list_of("ReactComponent"@),
{
    text("ReactComponent")
}

/// The default export shape.
pub fn default_export_type() -> (r: ExportType)
    ensures
        r == ExportType::Default,
{
    ExportType::Default
}

/// The default naming metadata.
pub fn default_state() -> (r: State)
    ensures
        r == (State {
            component_name: list_of("SvgComponent"@),
            caller: Caller { previous_export: List::Nil },
        }),
{
    State { component_name: text("SvgComponent"), caller: Caller { previous_export: List::Nil } }
}

/// The default expand-props policy: append the rest parameter at the end.
pub fn default_expand_props() -> (r: ExpandProps)
    ensures
        r == ExpandProps::End,
{
    ExpandProps::End
}

/// The default base import: `import * as React from "react"`.
pub fn default_jsx_runtime_import() -> (r: JSXRuntimeImport)
    ensures
        r == (JSXRuntimeImport {
            source: list_of("react"@),
            namespace: Some(list_of("React"@)),
            default_specifier: None,
            specifiers: None,
        }),
{
    JSXRuntimeImport {
        source: text("react"),
        namespace: Some(text("React")),
        default_specifier: None,
        specifiers: None,
    }
}

} // verus!
