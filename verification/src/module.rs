//! The module model the synthesizer produces: imports, interface and
//! component declarations, export statements, and the markup statements
//! of a freshly parsed file.  A previous-export fragment from
//! configuration is appended verbatim as an opaque item.

use vstd::prelude::*;

use crate::list::List;
use crate::text::Text;
use crate::tree::JsxElement;

verus! {

/// One specifier of an import declaration.
#[derive(Debug, PartialEq, Eq)]
pub enum ImportSpecifier {
    Default(Text),
    Named { local: Text, type_only: bool },
    Namespace(Text),
}

/// An import declaration; a pass may leave an explanatory trailing
/// comment on it.
#[derive(Debug, PartialEq, Eq)]
pub struct ImportDecl {
    pub src: Text,
    pub specifiers: List<ImportSpecifier>,
    pub trailing_comment: Option<Text>,
}

/// A named type reference; its arguments are themselves plain names.
#[derive(Debug, PartialEq, Eq)]
pub struct TsTypeRef {
    pub name: Text,
    pub args: List<Text>,
}

/// A type expression of the synthesized signatures.
#[derive(Debug, PartialEq, Eq)]
pub enum TsType {
    Ref(TsTypeRef),
    Intersection(TsTypeRef, TsTypeRef),
}

/// An interface declaration whose fields are optional strings.
#[derive(Debug, PartialEq, Eq)]
pub struct TsInterface {
    pub name: Text,
    pub fields: List<Text>,
}

/// One property of a destructuring parameter pattern.
#[derive(Debug, PartialEq, Eq)]
pub enum PatProp {
    Assign(Text),
    Rest(Text),
}

/// A parameter pattern of the synthesized component.
#[derive(Debug, PartialEq, Eq)]
pub enum Pat {
    Ident { name: Text, ty: Option<TsType> },
    Object { props: List<PatProp>, ty: Option<TsType> },
}

/// The component declaration: a constant bound to an arrow function
/// from the parameters to the rewritten markup.
#[derive(Debug, PartialEq, Eq)]
pub struct ComponentDecl {
    pub name: Text,
    pub params: List<Pat>,
    pub body: JsxElement,
}

/// One item of a module.
#[derive(Debug, PartialEq, Eq)]
pub enum ModuleItem {
    /// An expression statement holding markup, as the parser delivers it.
    JsxStmt(JsxElement),
    Import(ImportDecl),
    Interface(TsInterface),
    Component(ComponentDecl),
    /// `const name = callee(arg)`, used to wrap the component.
    ConstWrap { name: Text, callee: Text, arg: Text },
    /// `export { orig as exported }`
    NamedExport { orig: Text, exported: Text },
    /// `export default name`
    DefaultExport(Text),
    /// A configuration-supplied source fragment appended unchanged.
    Verbatim(Text),
}

/// An ordered module.
#[derive(Debug, PartialEq, Eq)]
pub struct Module {
    pub items: List<ModuleItem>,
}

} // verus!
