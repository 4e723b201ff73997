//! The model of what a derive macro receives: the struct's name, its outer
//! attributes as `syn` reads them, and its data.
use vstd::prelude::*;
use crate::commons::TypeModel;

verus! {

/// An item inside an attribute's parentheses: a path (kept by its last
/// identifier), a string literal (kept by its value), or anything else.
pub enum NestedMetaModel {
    Path(String),
    Str(String),
    Other,
}

/// The literal after `=` in `#[name = lit]`.
pub enum LitModel {
    Str(String),
    Other,
}

/// What `Attribute::parse_meta` makes of an attribute: `#[name]`,
/// `#[name(..)]`, `#[name = lit]`, or an error.
pub enum MetaModel {
    Path,
    List(Vec<NestedMetaModel>),
    NameValue(LitModel),
    Unparsable,
}

/// An outer attribute of the struct, named by the last identifier of its path.
pub struct AttributeModel {
    pub name: String,
    pub meta: MetaModel,
}

/// A named field: its identifier, type, visibility (as source text) and the
/// last identifiers of its attributes' paths.
pub struct FieldModel {
    pub ident: String,
    pub ty: TypeModel,
    pub vis: String,
    pub attrs: Vec<String>,
}

/// The fields of a struct.
pub enum FieldsModel {
    Named(Vec<FieldModel>),
    Unnamed,
    Unit,
}

/// The body of the annotated item.
pub enum DataModel {
    Struct(FieldsModel),
    Enum,
    Union,
}

/// The annotated item.
pub struct DeriveInputModel {
    pub ident: String,
    pub attrs: Vec<AttributeModel>,
    pub data: DataModel,
}

} // verus!
