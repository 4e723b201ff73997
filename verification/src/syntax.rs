//! Reading the annotated item with `syn` and turning it into the library's
//! model of it. The calls into `syn` only split syn's values into their parts;
//! the walk over attributes, fields and path segments is verified code.
use vstd::prelude::*;
use quote::ToTokens;
use crate::commons::{CrudError, PathSegmentModel, QSelfModel, TypeModel, TypePathModel};
use crate::input::{
    AttributeModel, DataModel, DeriveInputModel, FieldModel, FieldsModel, LitModel, MetaModel, NestedMetaModel,
};

verus! {

/// `syn::DeriveInput`, carried through opaquely.
#[verifier::external_type_specification]
#[verifier::external_body]
pub struct ExDeriveInput(syn::DeriveInput);

/// `syn::Error`, carried through opaquely.
#[verifier::external_type_specification]
#[verifier::external_body]
pub struct ExSynError(syn::Error);

/// `syn::Attribute`, carried through opaquely.
#[verifier::external_type_specification]
#[verifier::external_body]
pub struct ExAttribute(syn::Attribute);

/// `syn::NestedMeta`, carried through opaquely.
#[verifier::external_type_specification]
#[verifier::external_body]
pub struct ExNestedMeta(syn::NestedMeta);

/// `syn::Data`, carried through opaquely.
#[verifier::external_type_specification]
#[verifier::external_body]
pub struct ExData(syn::Data);

/// `syn::Field`, carried through opaquely.
#[verifier::external_type_specification]
#[verifier::external_body]
pub struct ExField(syn::Field);

/// `syn::Type`, carried through opaquely.
#[verifier::external_type_specification]
#[verifier::external_body]
pub struct ExType(syn::Type);

/// `syn::PathSegment`, carried through opaquely.
#[verifier::external_type_specification]
#[verifier::external_body]
pub struct ExPathSegment(syn::PathSegment);

/// What `Attribute::parse_meta` gave, split by kind; a list keeps its items.
pub enum MetaParts {
    Path,
    List(Vec<syn::NestedMeta>),
    NameValue(LitModel),
    Unparsable,
}

/// An item inside an attribute's parentheses: a path with its segments, the
/// value of a string literal, or anything else.
pub enum NestedMetaParts {
    Path(Vec<syn::PathSegment>),
    Str(String),
    Other,
}

/// The kind of the annotated item; named fields are kept.
pub enum DataParts {
    Named(Vec<syn::Field>),
    Unnamed,
    Unit,
    Enum,
    Union,
}

/// A type written as a path, with its segments still as `syn` values.
pub struct TypePathParts {
    pub qself: Option<QSelfModel>,
    pub leading_colon: bool,
    pub segments: Vec<syn::PathSegment>,
}

/// What `syn::parse2::<syn::DeriveInput>` gives for `item`, when it parses.
pub uninterp spec fn derive_input_parse(item: proc_macro2::TokenStream) -> Option<syn::DeriveInput>;

/// The text of a `syn::DeriveInput`'s identifier, its attributes and its data.
pub uninterp spec fn derive_input_split(d: syn::DeriveInput) -> (Seq<char>, Seq<syn::Attribute>, syn::Data);

/// The segments of an attribute's path.
pub uninterp spec fn attribute_segments(a: syn::Attribute) -> Seq<syn::PathSegment>;

/// What `Attribute::parse_meta` makes of an attribute, split by kind.
pub uninterp spec fn attribute_meta_of(a: syn::Attribute) -> MetaParts;

/// A nested meta item, split by kind.
pub uninterp spec fn nested_meta_of(n: syn::NestedMeta) -> NestedMetaParts;

/// The kind of a `syn::Data`, with its named fields.
pub uninterp spec fn data_parts_of(d: syn::Data) -> DataParts;

/// The text of a field's identifier and visibility, its attributes and its type.
pub uninterp spec fn field_parts_of(f: syn::Field) -> (Seq<char>, Seq<char>, Seq<syn::Attribute>, syn::Type);

/// A path type split into its parts; `None` for any other kind of type.
pub uninterp spec fn type_path_parts_of(t: syn::Type) -> Option<TypePathParts>;

/// The text of a path segment's identifier and of its generic arguments.
pub uninterp spec fn segment_parts(s: syn::PathSegment) -> (Seq<char>, Seq<char>);

/// Calls `syn::parse2::<syn::DeriveInput>(item)`. The contract names what the
/// parse gives, a function of the tokens alone; which error a failed parse
/// reports is not stated.
#[verifier::external_body]
fn parse_derive_input(item: proc_macro2::TokenStream) -> (res: Result<syn::DeriveInput, syn::Error>)
    ensures
        match res {
            Ok(d) => derive_input_parse(item) == Some(d),
            Err(_) => derive_input_parse(item) is None,
        },
{
    syn::parse2(item)
}

/// Calls `<syn::Error as Display>::to_string`, the message of a parse error.
#[verifier::external_body]
fn error_message(e: &syn::Error) -> String {
    e.to_string()
}

/// Splits a `syn::DeriveInput` into the text of its identifier, its attributes
/// and its data (`Ident::to_string` and moves).
#[verifier::external_body]
fn derive_input_parts(ast: syn::DeriveInput) -> (res: (String, Vec<syn::Attribute>, syn::Data))
    ensures
        res.0@ == derive_input_split(ast).0,
        res.1@ == derive_input_split(ast).1,
        res.2 == derive_input_split(ast).2,
{
    (ast.ident.to_string(), ast.attrs, ast.data)
}

/// The segments of an attribute's path, cloned.
#[verifier::external_body]
fn attribute_path_segments(a: &syn::Attribute) -> (res: Vec<syn::PathSegment>)
    ensures
        res@ == attribute_segments(*a),
{
    a.path.segments.iter().cloned().collect()
}

/// Calls `Attribute::parse_meta` and splits the result by kind.
#[verifier::external_body]
fn attribute_meta(a: &syn::Attribute) -> (res: MetaParts)
    ensures
        res == attribute_meta_of(*a),
{
    match a.parse_meta() {
        Ok(syn::Meta::Path(_)) => MetaParts::Path,
        Ok(syn::Meta::List(l)) => MetaParts::List(l.nested.into_iter().collect()),
        Ok(syn::Meta::NameValue(syn::MetaNameValue { lit: syn::Lit::Str(s), .. })) => MetaParts::NameValue(
            LitModel::Str(s.value()),
        ),
        Ok(syn::Meta::NameValue(_)) => MetaParts::NameValue(LitModel::Other),
        Err(_) => MetaParts::Unparsable,
    }
}

/// Tells a nested meta item apart: a path (with its segments, cloned), a
/// string literal (by `LitStr::value`), or anything else.
#[verifier::external_body]
fn nested_meta_parts(n: &syn::NestedMeta) -> (res: NestedMetaParts)
    ensures
        res == nested_meta_of(*n),
{
    match n {
        syn::NestedMeta::Meta(syn::Meta::Path(p)) => NestedMetaParts::Path(p.segments.iter().cloned().collect()),
        syn::NestedMeta::Lit(syn::Lit::Str(s)) => NestedMetaParts::Str(s.value()),
        _ => NestedMetaParts::Other,
    }
}

/// Tells the kinds of `syn::Data` apart, keeping named fields.
#[verifier::external_body]
fn data_parts(d: syn::Data) -> (res: DataParts)
    ensures
        res == data_parts_of(d),
{
    match d {
        syn::Data::Struct(s) => match s.fields {
            syn::Fields::Named(f) => DataParts::Named(f.named.into_iter().collect()),
            syn::Fields::Unnamed(_) => DataParts::Unnamed,
            syn::Fields::Unit => DataParts::Unit,
        },
        syn::Data::Enum(_) => DataParts::Enum,
        syn::Data::Union(_) => DataParts::Union,
    }
}

/// Splits a field into the text of its identifier (empty when unnamed), the
/// text of its visibility, its attributes and its type.
#[verifier::external_body]
fn field_parts(f: syn::Field) -> (res: (String, String, Vec<syn::Attribute>, syn::Type))
    ensures
        res.0@ == field_parts_of(f).0,
        res.1@ == field_parts_of(f).1,
        res.2@ == field_parts_of(f).2,
        res.3 == field_parts_of(f).3,
{
    let ident = match &f.ident {
        Some(i) => i.to_string(),
        None => String::new(),
    };
    (ident, f.vis.to_token_stream().to_string(), f.attrs, f.ty)
}

/// Tells a path type apart from other types, and splits it into the text of
/// its qualified self and position, whether it starts with `::`, and its segments.
#[verifier::external_body]
fn type_path_parts(t: syn::Type) -> (res: Option<TypePathParts>)
    ensures
        res == type_path_parts_of(t),
{
    match t {
        syn::Type::Path(tp) => Some(TypePathParts {
            qself: match tp.qself {
                Some(q) => Some(QSelfModel { ty: q.ty.to_token_stream().to_string(), position: q.position }),
                None => None,
            },
            leading_colon: tp.path.leading_colon.is_some(),
            segments: tp.path.segments.into_iter().collect(),
        }),
        _ => None,
    }
}

/// The text of a path segment's identifier and of its generic arguments.
#[verifier::external_body]
fn segment_model(s: &syn::PathSegment) -> (res: PathSegmentModel)
    ensures
        res.ident@ == segment_parts(*s).0,
        res.args@ == segment_parts(*s).1,
{
    PathSegmentModel { ident: s.ident.to_string(), args: s.arguments.to_token_stream().to_string() }
}

/// The text of the last identifier of a path, empty when it has no segment.
pub open spec fn last_ident(segs: Seq<syn::PathSegment>) -> Seq<char> {
    if segs.len() == 0 {
        Seq::empty()
    } else {
        segment_parts(segs.last()).0
    }
}

/// The name of an attribute: the last identifier of its path.
pub open spec fn attribute_name_of(a: syn::Attribute) -> Seq<char> {
    last_ident(attribute_segments(a))
}

/// `x` is the model of the nested meta item `n`.
pub open spec fn nested_describes(x: NestedMetaModel, n: syn::NestedMeta) -> bool {
    match nested_meta_of(n) {
        NestedMetaParts::Path(segs) => if segs@.len() == 0 {
            x is Other
        } else {
            x matches NestedMetaModel::Path(p) && p@ == last_ident(segs@)
        },
        NestedMetaParts::Str(s) => x matches NestedMetaModel::Str(t) && t@ == s@,
        NestedMetaParts::Other => x is Other,
    }
}

/// `l` is the literal `lit` read by `parse_meta`.
pub open spec fn lit_describes(l: LitModel, lit: LitModel) -> bool {
    match (l, lit) {
        (LitModel::Str(a), LitModel::Str(b)) => a@ == b@,
        (LitModel::Other, LitModel::Other) => true,
        _ => false,
    }
}

/// `mm` is what `parse_meta` makes of the attribute `a`.
pub open spec fn meta_describes(mm: MetaModel, a: syn::Attribute) -> bool {
    match attribute_meta_of(a) {
        MetaParts::Path => mm is Path,
        MetaParts::List(items) => mm matches MetaModel::List(v) && v@.len() == items@.len() && forall|i: int|
            0 <= i < v@.len() ==> nested_describes(#[trigger] v@[i], items@[i]),
        MetaParts::NameValue(lit) => mm matches MetaModel::NameValue(l) && lit_describes(l, lit),
        MetaParts::Unparsable => mm is Unparsable,
    }
}

/// `am` is the model of the attribute `a`.
pub open spec fn attribute_describes(am: AttributeModel, a: syn::Attribute) -> bool {
    am.name@ == attribute_name_of(a) && meta_describes(am.meta, a)
}

/// `ms` are the models of the attributes `attrs`, in order.
pub open spec fn attributes_describe(ms: Seq<AttributeModel>, attrs: Seq<syn::Attribute>) -> bool {
    ms.len() == attrs.len() && forall|i: int| 0 <= i < ms.len() ==> attribute_describes(#[trigger] ms[i], attrs[i])
}

/// `m` is the model of the path segment `s`.
pub open spec fn segment_describes(m: PathSegmentModel, s: syn::PathSegment) -> bool {
    m.ident@ == segment_parts(s).0 && m.args@ == segment_parts(s).1
}

/// `tm` is the model of the type `t`.
pub open spec fn type_describes(tm: TypeModel, t: syn::Type) -> bool {
    match type_path_parts_of(t) {
        None => tm is Other,
        Some(p) => tm matches TypeModel::Path(tp) && tp.qself == p.qself && tp.leading_colon == p.leading_colon
            && tp.segments@.len() == p.segments@.len() && forall|i: int|
            0 <= i < tp.segments@.len() ==> segment_describes(#[trigger] tp.segments@[i], p.segments@[i]),
    }
}

/// `fm` is the model of the field `f`: its identifier, visibility, type and
/// the names of its attributes.
pub open spec fn field_describes(fm: FieldModel, f: syn::Field) -> bool {
    let parts = field_parts_of(f);
    &&& fm.ident@ == parts.0
    &&& fm.vis@ == parts.1
    &&& type_describes(fm.ty, parts.3)
    &&& fm.attrs@.len() == parts.2.len()
    &&& forall|i: int| 0 <= i < fm.attrs@.len() ==> (#[trigger] fm.attrs@[i])@ == attribute_name_of(parts.2[i])
}

/// `dm` is the model of the data `d`.
pub open spec fn data_describes(dm: DataModel, d: syn::Data) -> bool {
    match data_parts_of(d) {
        DataParts::Named(fs) => dm matches DataModel::Struct(FieldsModel::Named(v)) && v@.len() == fs@.len()
            && forall|i: int| 0 <= i < v@.len() ==> field_describes(#[trigger] v@[i], fs@[i]),
        DataParts::Unnamed => dm matches DataModel::Struct(FieldsModel::Unnamed),
        DataParts::Unit => dm matches DataModel::Struct(FieldsModel::Unit),
        DataParts::Enum => dm is Enum,
        DataParts::Union => dm is Union,
    }
}

/// `m` is the model of the parsed item `d`.
pub open spec fn input_describes(m: DeriveInputModel, d: syn::DeriveInput) -> bool {
    let parts = derive_input_split(d);
    &&& m.ident@ == parts.0
    &&& attributes_describe(m.attrs@, parts.1)
    &&& data_describes(m.data, parts.2)
}

/// The item parses as a `syn::DeriveInput` and `m` is the model of it.
pub open spec fn models_item(m: DeriveInputModel, item: proc_macro2::TokenStream) -> bool {
    derive_input_parse(item) matches Some(d) && input_describes(m, d)
}

fn last_segment_ident(segs: &Vec<syn::PathSegment>) -> (res: String)
    ensures
        res@ == last_ident(segs@),
{
    let n: usize = segs.len();
    if n == 0 {
        String::new()
    } else {
        segment_model(&segs[n - 1]).ident
    }
}

fn attribute_name(a: &syn::Attribute) -> (res: String)
    ensures
        res@ == attribute_name_of(*a),
{
    let segs = attribute_path_segments(a);
    last_segment_ident(&segs)
}

fn nested_item(n: &syn::NestedMeta) -> (res: NestedMetaModel)
    ensures
        nested_describes(res, *n),
{
    match nested_meta_parts(n) {
        NestedMetaParts::Path(segs) => if segs.len() == 0 {
            NestedMetaModel::Other
        } else {
            NestedMetaModel::Path(last_segment_ident(&segs))
        },
        NestedMetaParts::Str(s) => NestedMetaModel::Str(s),
        NestedMetaParts::Other => NestedMetaModel::Other,
    }
}

fn attribute_model(a: &syn::Attribute) -> (res: AttributeModel)
    ensures
        attribute_describes(res, *a),
{
    let name = attribute_name(a);
    let meta = match attribute_meta(a) {
        MetaParts::Path => MetaModel::Path,
        MetaParts::List(items) => {
            let mut nested: Vec<NestedMetaModel> = Vec::new();
            let n: usize = items.len();
            let mut i: usize = 0;
            while i < n
                invariant
                    n == items@.len(),
                    i <= n,
                    nested@.len() == i,
                    forall|j: int| 0 <= j < i ==> nested_describes(#[trigger] nested@[j], items@[j]),
                decreases n - i,
            {
                nested.push(nested_item(&items[i]));
                i = i + 1;
            }
            MetaModel::List(nested)
        },
        MetaParts::NameValue(lit) => MetaModel::NameValue(lit),
        MetaParts::Unparsable => MetaModel::Unparsable,
    };
    AttributeModel { name, meta }
}

fn attributes_model(attrs: &Vec<syn::Attribute>) -> (res: Vec<AttributeModel>)
    ensures
        attributes_describe(res@, attrs@),
{
    let mut out: Vec<AttributeModel> = Vec::new();
    let n: usize = attrs.len();
    let mut i: usize = 0;
    while i < n
        invariant
            n == attrs@.len(),
            i <= n,
            out@.len() == i,
            forall|j: int| 0 <= j < i ==> attribute_describes(#[trigger] out@[j], attrs@[j]),
        decreases n - i,
    {
        out.push(attribute_model(&attrs[i]));
        i = i + 1;
    }
    out
}

fn type_model(t: syn::Type) -> (res: TypeModel)
    ensures
        type_describes(res, t),
{
    match type_path_parts(t) {
        Some(parts) => {
            let mut segments: Vec<PathSegmentModel> = Vec::new();
            let n: usize = parts.segments.len();
            let mut i: usize = 0;
            while i < n
                invariant
                    n == parts.segments@.len(),
                    i <= n,
                    segments@.len() == i,
                    forall|j: int| 0 <= j < i ==> segment_describes(#[trigger] segments@[j], parts.segments@[j]),
                decreases n - i,
            {
                segments.push(segment_model(&parts.segments[i]));
                i = i + 1;
            }
            TypeModel::Path(TypePathModel { qself: parts.qself, leading_colon: parts.leading_colon, segments })
        },
        None => TypeModel::Other,
    }
}

fn field_model(f: syn::Field) -> (res: FieldModel)
    ensures
        field_describes(res, f),
{
    let (ident, vis, attrs, ty) = field_parts(f);
    let mut names: Vec<String> = Vec::new();
    let n: usize = attrs.len();
    let mut i: usize = 0;
    while i < n
        invariant
            n == attrs@.len(),
            i <= n,
            names@.len() == i,
            forall|j: int| 0 <= j < i ==> (#[trigger] names@[j])@ == attribute_name_of(attrs@[j]),
        decreases n - i,
    {
        names.push(attribute_name(&attrs[i]));
        i = i + 1;
    }
    FieldModel { ident, ty: type_model(ty), vis, attrs: names }
}

fn data_model(d: syn::Data) -> (res: DataModel)
    ensures
        data_describes(res, d),
{
    match data_parts(d) {
        DataParts::Named(fields) => {
            let ghost fs = fields@;
            let mut rest = fields;
            let mut out: Vec<FieldModel> = Vec::new();
            while rest.len() > 0
                invariant
                    out@.len() <= fs.len(),
                    rest@ == fs.skip(out@.len() as int),
                    forall|j: int| 0 <= j < out@.len() ==> field_describes(#[trigger] out@[j], fs[j]),
                decreases rest@.len(),
            {
                let f = rest.remove(0);
                out.push(field_model(f));
            }
            DataModel::Struct(FieldsModel::Named(out))
        },
        DataParts::Unnamed => DataModel::Struct(FieldsModel::Unnamed),
        DataParts::Unit => DataModel::Struct(FieldsModel::Unit),
        DataParts::Enum => DataModel::Enum,
        DataParts::Union => DataModel::Union,
    }
}

/// Parses the annotated item with `syn` and builds the library's model of it:
/// when the item parses, the model of what it parses to; otherwise a parse
/// error with `syn`'s message.
pub fn parse_input(item: proc_macro2::TokenStream) -> (res: Result<DeriveInputModel, CrudError>)
    ensures
        derive_input_parse(item) is None ==> (res matches Err(e) && e is Parse),
        derive_input_parse(item) is Some ==> (res matches Ok(m) && models_item(m, item)),
{
    let ghost it = item;
    match parse_derive_input(item) {
        Ok(ast) => {
            let ghost d = ast;
            let (ident, attrs, data) = derive_input_parts(ast);
            let attrs_model = attributes_model(&attrs);
            let m = DeriveInputModel { ident, attrs: attrs_model, data: data_model(data) };
            assert(input_describes(m, d));
            Ok(m)
        },
        Err(e) => Err(CrudError::Parse(error_message(&e))),
    }
}

} // verus!
