//! Generates the source of CRUD items (insertable and changeset structs,
//! Diesel functions and Actix Web endpoints) from the definition of a struct.
use vstd::prelude::*;
use crate::attributes::{attr_step, attrs_read, nested_strs, inner_flags, lemma_inner_flags_are_markers, opt_text, opt_texts, parse_attributes, parse_inner_attributes, AttrsRead};
use crate::create::{create_code, new_struct_name};
use crate::create::struct_gen::selected_fields;
use crate::delete::delete_code;
use crate::faker::faker_text;
use crate::ident::{is_valid_ident_text, text_equals, valid_ident_text};
use crate::patch::{patch_code, patch_struct_name};
use crate::read::read_code;
use crate::commons::{fails_with, marked_fields, texts, CrudError, CrudErrorView, ParsedField};
use crate::helpers::{ascii_lowercase, is_ascii_text, lowercase_text, to_lowercase};
use crate::input::{AttributeModel, DataModel, DeriveInputModel, FieldModel, FieldsModel, MetaModel};
use crate::lexical::{lex, lexes, str_literal_spelling, string_literal, LexedSource};
use crate::syntax::{derive_input_parse, models_item};

pub mod lexical;
pub mod helpers;
pub mod ident;
pub mod commons;
pub mod create;
pub mod read;
pub mod delete;
pub mod patch;
pub mod faker;
pub mod input;
pub mod attributes;
pub mod syntax;
pub mod laws;

verus! {

/// The fields of a struct with named fields; enums, unions, tuple and unit structs are refused.
pub open spec fn data_fields(data: DataModel) -> Result<Seq<FieldModel>, CrudErrorView> {
    match data {
        DataModel::Struct(FieldsModel::Named(v)) => Ok(v@),
        DataModel::Struct(_) => Err(CrudErrorView::NoNamedFields),
        _ => Err(CrudErrorView::NotAStruct),
    }
}

/// Takes the named fields out of the annotated item.
pub fn parse_data(data: DataModel) -> (res: Result<Vec<FieldModel>, CrudError>)
    ensures
        match data_fields(data) {
            Ok(v) => res matches Ok(x) && x@ == v,
            Err(e) => fails_with(res, e),
        },
{
    match data {
        DataModel::Struct(fields) => {
            if let FieldsModel::Named(named) = fields {
                Ok(named)
            } else {
                Err(CrudError::NoNamedFields)
            }
        },
        _ => Err(CrudError::NotAStruct),
    }
}

/// A field with its markers read from its attributes.
pub open spec fn parsed_field_of(f: FieldModel) -> ParsedField {
    let flags = inner_flags(texts(f.attrs@));
    ParsedField { ident: f.ident, ty: f.ty, vis: f.vis, creatable: flags.0, patchable: flags.1 }
}

/// Reads the markers of every field.
pub fn buil_data_struct(p_data: Vec<FieldModel>) -> (res: Vec<ParsedField>)
    ensures
        res@ == p_data@.map_values(|f: FieldModel| parsed_field_of(f)),
{
    let ghost orig = p_data@;
    let total: usize = p_data.len();
    let mut rest = p_data;
    let mut out: Vec<ParsedField> = Vec::new();
    let mut k: usize = 0;
    while rest.len() > 0
        invariant
            k + rest@.len() == orig.len(),
            orig.len() == total,
            rest@ == orig.skip(k as int),
            out@ == orig.take(k as int).map_values(|f: FieldModel| parsed_field_of(f)),
        decreases rest@.len(),
    {
        let f = rest.remove(0);
        assert(f == orig[k as int]);
        let mut acc: (bool, bool) = (false, false);
        let n: usize = f.attrs.len();
        let mut i: usize = 0;
        while i < n
            invariant
                n == f.attrs@.len(),
                i <= n,
                acc == inner_flags(texts(f.attrs@).take(i as int)),
            decreases n - i,
        {
            assert(texts(f.attrs@).take(i + 1).drop_last() =~= texts(f.attrs@).take(i as int));
            acc = parse_inner_attributes(acc, &f.attrs[i]);
            i = i + 1;
        }
        assert(texts(f.attrs@).take(n as int) =~= texts(f.attrs@));
        let (creatable, patchable) = acc;
        let FieldModel { ident, ty, vis, attrs: _ } = f;
        out.push(ParsedField { ident, ty, vis, creatable, patchable });
        assert(orig.take(k + 1).map_values(|f: FieldModel| parsed_field_of(f)) =~= orig.take(k as int).map_values(
            |f: FieldModel| parsed_field_of(f),
        ).push(parsed_field_of(orig[k as int])));
        assert(rest@ =~= orig.skip(k + 1));
        k = k + 1;
    }
    assert(orig.take(k as int) =~= orig);
    out
}

/// The table name: the one given, or the struct name in lower case followed by `s`.
pub open spec fn table_name_of(name: Option<Seq<char>>, s_id: Seq<char>) -> Seq<char> {
    match name {
        Some(n) => n,
        None => lowercase_text(s_id) + "s"@,
    }
}

/// The attribute `#[table_name = "<table>"]` given to the generated structs.
pub open spec fn table_name_quote_text(table: Seq<char>) -> Seq<char> {
    "#[table_name = "@ + str_literal_spelling(table) + "]"@
}

/// The table name and the `table_name` attribute for the generated structs.
pub fn format_table_name(name: Option<String>, s_id: &str) -> (res: (String, String))
    ensures
        res.0@ == table_name_of(opt_text(name), s_id@),
        name is None && is_ascii_text(s_id@) ==> res.0@ == ascii_lowercase(s_id@) + "s"@,
        res.1@ == table_name_quote_text(res.0@),
{
    let i = match name {
        Some(n) => n,
        None => {
            let mut t = to_lowercase(s_id);
            t.append("s");
            t
        },
    };
    let lit = string_literal(i.as_str());
    let mut q = String::from_str("#[table_name = ");
    q.append(lit.as_str());
    q.append("]");
    (i, q)
}


/// The operation `op` is among the requested ones.
pub open spec fn ops_has(ops: Option<Seq<Seq<char>>>, op: Seq<char>) -> bool {
    match ops {
        Some(v) => v.contains(op),
        None => false,
    }
}

/// Whether the text `t` is one of the strings of `v`.
fn contains_text(v: &Vec<String>, t: &str) -> (res: bool)
    ensures
        res == texts(v@).contains(t@),
{
    let n: usize = v.len();
    let mut i: usize = 0;
    while i < n
        invariant
            n == v@.len(),
            i <= n,
            forall|j: int| 0 <= j < i ==> texts(v@)[j] != t@,
        decreases n - i,
    {
        if text_equals(v[i].as_str(), t) {
            assert(texts(v@)[i as int] == t@);
            return true;
        }
        i = i + 1;
    }
    false
}

/// Whether the operation `op` was requested.
fn ops_contains(ops: &Option<Vec<String>>, op: &str) -> (res: bool)
    ensures
        res == ops_has(opt_texts(*ops), op@),
{
    match ops {
        Some(v) => contains_text(v, op),
        None => false,
    }
}

/// The traits every expansion declares.
pub open spec fn header_text() -> Seq<char> {
    "\npub trait Generate {\n    fn generate() -> Self;\n\n    fn generate_multiple(amount: u32) -> Vec<Self> where Self: Sized;\n}\npub trait FromMultiple<T>: Sized {\n    fn from_multiple(_: T) -> Vec<Self>;\n}\n"@
}

/// The function that registers the generated endpoints with Actix Web.
pub open spec fn config_fn_text(cfg_ident: Seq<char>, cfg: Seq<char>) -> Seq<char> {
    "\npub fn "@ + cfg_ident + "(cfg: &mut web::ServiceConfig) {\n    "@ + cfg + ";\n}\n"@
}

/// The lifetime of the generated reference fields.
pub open spec fn main_lifetime() -> Seq<char> {
    "'a"@
}

/// The route of the collection: `/<table>`.
pub open spec fn endpoint_of(table: Seq<char>) -> Seq<char> {
    "/"@ + table
}

/// The route of one record: `/<table>/{id}`.
pub open spec fn endpoint_w_param_of(table: Seq<char>) -> Seq<char> {
    "/"@ + table + "/{id}"@
}

/// The name of the configuration function: `<table>_endpoints_config`.
pub open spec fn config_ident_of(table: Seq<char>) -> Seq<char> {
    table + "_endpoints_config"@
}

/// The code and configuration suffix of the `create` operation, when requested.
pub open spec fn create_part(
    pf: Seq<ParsedField>,
    st: AttrsRead,
    s: Seq<char>,
    table: Seq<char>,
) -> Result<(Seq<char>, Seq<char>), CrudErrorView> {
    if ops_has(st.operations, "create"@) {
        let ns = new_struct_name(s);
        if !valid_ident_text(ns) {
            Err(CrudErrorView::InvalidIdent(ns))
        } else {
            match selected_fields(pf, false) {
                Err(e) => Err(e),
                Ok(m) => Ok(
                    (
                        create_code(m, main_lifetime(), table_name_quote_text(table), ns, s, endpoint_of(table)),
                        ".service(create)"@,
                    ),
                ),
            }
        }
    } else {
        Ok((Seq::<char>::empty(), Seq::<char>::empty()))
    }
}

/// The code and configuration suffix of the `read` operation, when requested.
pub open spec fn read_part(st: AttrsRead, s: Seq<char>, table: Seq<char>) -> (Seq<char>, Seq<char>) {
    if ops_has(st.operations, "read"@) {
        (read_code(s, endpoint_of(table), endpoint_w_param_of(table)), ".service(read).service(get)"@)
    } else {
        (Seq::<char>::empty(), Seq::<char>::empty())
    }
}

/// The code and configuration suffix of the `patch` operation, when requested.
pub open spec fn patch_part(
    pf: Seq<ParsedField>,
    st: AttrsRead,
    s: Seq<char>,
    table: Seq<char>,
) -> Result<(Seq<char>, Seq<char>), CrudErrorView> {
    if ops_has(st.operations, "patch"@) {
        let ps = patch_struct_name(s);
        if !valid_ident_text(ps) {
            Err(CrudErrorView::InvalidIdent(ps))
        } else {
            match selected_fields(pf, true) {
                Err(e) => Err(e),
                Ok(m) => Ok(
                    (
                        patch_code(m, main_lifetime(), table_name_quote_text(table), ps, s, endpoint_w_param_of(table)),
                        ".service(patch)"@,
                    ),
                ),
            }
        }
    } else {
        Ok((Seq::<char>::empty(), Seq::<char>::empty()))
    }
}

/// The code and configuration suffix of the `delete` operation, when requested.
pub open spec fn delete_part(st: AttrsRead, s: Seq<char>, table: Seq<char>) -> (Seq<char>, Seq<char>) {
    if ops_has(st.operations, "delete"@) {
        (delete_code(s, endpoint_w_param_of(table)), ".service(delete)"@)
    } else {
        (Seq::<char>::empty(), Seq::<char>::empty())
    }
}

/// The `Generate` impl, when the struct derives `Dummy`.
pub open spec fn faker_part(st: AttrsRead, s: Seq<char>) -> Seq<char> {
    if st.derived.contains("Dummy"@) {
        faker_text(s)
    } else {
        Seq::<char>::empty()
    }
}

/// The whole expansion for a struct whose fields and attributes were read.
pub open spec fn crud_body(pf: Seq<ParsedField>, st: AttrsRead, s: Seq<char>, table: Seq<char>) -> Result<
    Seq<char>,
    CrudErrorView,
> {
    match create_part(pf, st, s, table) {
        Err(e) => Err(e),
        Ok(c) => match patch_part(pf, st, s, table) {
            Err(e) => Err(e),
            Ok(p) => {
                let rd = read_part(st, s, table);
                let d = delete_part(st, s, table);
                Ok(
                    header_text() + c.0 + rd.0 + p.0 + d.0 + faker_part(st, s) + config_fn_text(
                        config_ident_of(table),
                        "cfg"@ + c.1 + rd.1 + p.1 + d.1,
                    ),
                )
            },
        },
    }
}

/// The source that the derive expands to, or the first reason it cannot:
/// the struct name, then the attributes, then the name of the configuration
/// function, then the shape of the data, then `create`, then `patch`.
pub open spec fn crud_source(input: DeriveInputModel) -> Result<Seq<char>, CrudErrorView> {
    let s = input.ident@;
    if !valid_ident_text(s) {
        Err(CrudErrorView::InvalidIdent(s))
    } else {
        match attrs_read(input.attrs@) {
            Err(e) => Err(e),
            Ok(st) => {
                let table = table_name_of(st.table_name, s);
                if !valid_ident_text(config_ident_of(table)) {
                    Err(CrudErrorView::InvalidIdent(config_ident_of(table)))
                } else {
                    match data_fields(input.data) {
                        Err(e) => Err(e),
                        Ok(fs) => crud_body(fs.map_values(|f: FieldModel| parsed_field_of(f)), st, s, table),
                    }
                }
            },
        }
    }
}

/// The `create` and `read` code, appended to `r` and `endpoint_config`.
fn generate_create_read(
    data_struct: &Vec<ParsedField>,
    operations: &Option<Vec<String>>,
    r: String,
    endpoint_config: String,
    table_name_quote: &str,
    s_id: &str,
    endpoint: &str,
    endpoint_w_param: &str,
    Ghost(st): Ghost<AttrsRead>,
    Ghost(table): Ghost<Seq<char>>,
) -> (res: Result<(String, String), CrudError>)
    requires
        st.operations == opt_texts(*operations),
        table_name_quote@ == table_name_quote_text(table),
        endpoint@ == endpoint_of(table),
        endpoint_w_param@ == endpoint_w_param_of(table),
    ensures
        match create_part(data_struct@, st, s_id@, table) {
            Err(e) => fails_with(res, e),
            Ok(c) => res matches Ok((code, config)) && code@ == r@ + c.0 + read_part(st, s_id@, table).0
                && config@ == endpoint_config@ + c.1 + read_part(st, s_id@, table).1,
        },
{
    let mut r = r;
    let mut endpoint_config = endpoint_config;
    let ghost r0 = r@;
    let ghost g0 = endpoint_config@;
    if ops_contains(operations, "create") {
        let (r1, c1) = match create::generate_create(
            data_struct,
            "'a",
            r,
            table_name_quote,
            s_id,
            s_id,
            endpoint,
            endpoint_config,
        ) {
            Ok(v) => v,
            Err(e) => return Err(e),
        };
        r = r1;
        endpoint_config = c1;
    } else {
        assert(r@ =~= r0 + Seq::<char>::empty());
        assert(endpoint_config@ =~= g0 + Seq::<char>::empty());
    }
    let ghost r1 = r@;
    let ghost g1 = endpoint_config@;
    if ops_contains(operations, "read") {
        let (r2, c2) = read::generate_read(r, s_id, endpoint, endpoint_w_param, endpoint_config);
        r = r2;
        endpoint_config = c2;
    } else {
        assert(r@ =~= r1 + Seq::<char>::empty());
        assert(endpoint_config@ =~= g1 + Seq::<char>::empty());
    }
    Ok((r, endpoint_config))
}

/// The `patch`, `delete` and `Generate` code, appended to `r` and `endpoint_config`.
fn generate_patch_delete_faker(
    data_struct: &Vec<ParsedField>,
    operations: &Option<Vec<String>>,
    derived_traits: &Vec<String>,
    r: String,
    endpoint_config: String,
    table_name_quote: &str,
    s_id: &str,
    endpoint_w_param: &str,
    Ghost(st): Ghost<AttrsRead>,
    Ghost(table): Ghost<Seq<char>>,
) -> (res: Result<(String, String), CrudError>)
    requires
        st.operations == opt_texts(*operations),
        st.derived == texts(derived_traits@),
        valid_ident_text(s_id@),
        table_name_quote@ == table_name_quote_text(table),
        endpoint_w_param@ == endpoint_w_param_of(table),
    ensures
        match patch_part(data_struct@, st, s_id@, table) {
            Err(e) => fails_with(res, e),
            Ok(p) => res matches Ok((code, config)) && code@ == r@ + p.0 + delete_part(st, s_id@, table).0
                + faker_part(st, s_id@) && config@ == endpoint_config@ + p.1 + delete_part(st, s_id@, table).1,
        },
{
    let mut r = r;
    let mut endpoint_config = endpoint_config;
    let ghost r0 = r@;
    let ghost g0 = endpoint_config@;
    if ops_contains(operations, "update") {
    }
    if ops_contains(operations, "patch") {
        let (r1, c1) = match patch::generate_patch(
            data_struct,
            "'a",
            r,
            table_name_quote,
            s_id,
            s_id,
            endpoint_w_param,
            endpoint_config,
        ) {
            Ok(v) => v,
            Err(e) => return Err(e),
        };
        r = r1;
        endpoint_config = c1;
    } else {
        assert(r@ =~= r0 + Seq::<char>::empty());
        assert(endpoint_config@ =~= g0 + Seq::<char>::empty());
    }
    let ghost r1 = r@;
    let ghost g1 = endpoint_config@;
    if ops_contains(operations, "delete") {
        let (r2, c2) = delete::generate_delete(r, s_id, endpoint_w_param, endpoint_config);
        r = r2;
        endpoint_config = c2;
    } else {
        assert(r@ =~= r1 + Seq::<char>::empty());
        assert(endpoint_config@ =~= g1 + Seq::<char>::empty());
    }
    let ghost r2 = r@;
    if contains_text(derived_traits, "Dummy") {
        r = match faker::implement_faker(r, s_id) {
            Ok(v) => v,
            Err(e) => return Err(e),
        };
    } else {
        assert(r@ =~= r2 + Seq::<char>::empty());
    }
    Ok((r, endpoint_config))
}

/// Generates the source of the CRUD items for the annotated struct, as
/// `crud_source` says.
pub fn generate_crud_source(input: DeriveInputModel) -> (res: Result<String, CrudError>)
    ensures
        match crud_source(input) {
            Ok(t) => res matches Ok(x) && x@ == t,
            Err(e) => fails_with(res, e),
        },
{
    let DeriveInputModel { ident, attrs, data } = input;
    let s_id = ident.as_str();
    if !is_valid_ident_text(s_id) {
        return Err(CrudError::InvalidIdent(ident));
    }
    let r = String::from_str("\npub trait Generate {\n    fn generate() -> Self;\n\n    fn generate_multiple(amount: u32) -> Vec<Self> where Self: Sized;\n}\npub trait FromMultiple<T>: Sized {\n    fn from_multiple(_: T) -> Vec<Self>;\n}\n");
    let (derived_traits, operations, parsed_table_name) = match parse_attributes(&attrs) {
        Ok(v) => v,
        Err(e) => return Err(e),
    };
    let ghost st = attrs_read(attrs@)->Ok_0;
    let (table_name, table_name_quote) = format_table_name(parsed_table_name, s_id);
    let ghost table = table_name@;
    let mut endpoint = String::from_str("/");
    endpoint.append(table_name.as_str());
    let mut endpoint_w_param = String::from_str("/");
    endpoint_w_param.append(table_name.as_str());
    endpoint_w_param.append("/{id}");
    let endpoint_config = String::from_str("cfg");
    assert(r@ == header_text());
    let mut endpoint_cfg_ident = table_name.clone();
    endpoint_cfg_ident.append("_endpoints_config");
    if !is_valid_ident_text(endpoint_cfg_ident.as_str()) {
        return Err(CrudError::InvalidIdent(endpoint_cfg_ident));
    }
    generate_from_data(
        data,
        &derived_traits,
        &operations,
        table_name_quote.as_str(),
        s_id,
        endpoint.as_str(),
        endpoint_w_param.as_str(),
        endpoint_config,
        endpoint_cfg_ident.as_str(),
        r,
        Ghost(st),
        Ghost(table),
    )
}

/// Everything after the attributes are read: the fields, the operations and
/// the configuration function.
#[verifier::spinoff_prover]
fn generate_from_data(
    data: DataModel,
    derived_traits: &Vec<String>,
    operations: &Option<Vec<String>>,
    table_name_quote: &str,
    s_id: &str,
    endpoint: &str,
    endpoint_w_param: &str,
    endpoint_config: String,
    endpoint_cfg_ident: &str,
    r: String,
    Ghost(st): Ghost<AttrsRead>,
    Ghost(table): Ghost<Seq<char>>,
) -> (res: Result<String, CrudError>)
    requires
        st.operations == opt_texts(*operations),
        st.derived == texts(derived_traits@),
        valid_ident_text(s_id@),
        table_name_quote@ == table_name_quote_text(table),
        endpoint@ == endpoint_of(table),
        endpoint_w_param@ == endpoint_w_param_of(table),
        endpoint_config@ == "cfg"@,
        endpoint_cfg_ident@ == config_ident_of(table),
        r@ == header_text(),
    ensures
        match data_fields(data) {
            Err(e) => fails_with(res, e),
            Ok(fs) => match crud_body(fs.map_values(|f: FieldModel| parsed_field_of(f)), st, s_id@, table) {
                Ok(t) => res matches Ok(x) && x@ == t,
                Err(e) => fails_with(res, e),
            },
        },
{
    let p_data = match parse_data(data) {
        Ok(v) => v,
        Err(e) => return Err(e),
    };
    let data_struct = buil_data_struct(p_data);
    let (r1, g1) = match generate_create_read(
        &data_struct,
        operations,
        r,
        endpoint_config,
        table_name_quote,
        s_id,
        endpoint,
        endpoint_w_param,
        Ghost(st),
        Ghost(table),
    ) {
        Ok(v) => v,
        Err(e) => return Err(e),
    };
    let (mut r2, g2) = match generate_patch_delete_faker(
        &data_struct,
        operations,
        derived_traits,
        r1,
        g1,
        table_name_quote,
        s_id,
        endpoint_w_param,
        Ghost(st),
        Ghost(table),
    ) {
        Ok(v) => v,
        Err(e) => return Err(e),
    };
    r2.append("\npub fn ");
    r2.append(endpoint_cfg_ident);
    r2.append("(cfg: &mut web::ServiceConfig) {\n    ");
    r2.append(g2.as_str());
    r2.append(";\n}\n");
    Ok(r2)
}

/// What generating tokens for `input` gives: the error of `crud_source` when
/// it fails; otherwise tokens lexed from its text, or `CrudError::Lex` when
/// the text is refused.
pub open spec fn crud_outcome(input: DeriveInputModel, res: Result<LexedSource, CrudError>) -> bool {
    &&& (crud_source(input) matches Err(e) ==> fails_with(res, e))
    &&& (crud_source(input) matches Ok(t) ==> (res matches Ok(x) ==> x.source() == t && lexes(t)))
    &&& (crud_source(input) is Ok ==> (res is Err ==> fails_with(res, CrudErrorView::Lex)))
}

/// Generates the CRUD items for a struct model as tokens: the source of
/// `generate_crud_source`, lexed by `proc_macro2`. A source that does not lex
/// is reported as `CrudError::Lex`.
pub fn generate_crud_for(input: DeriveInputModel) -> (res: Result<LexedSource, CrudError>)
    ensures
        crud_outcome(input, res),
{
    let source = match generate_crud_source(input) {
        Ok(s) => s,
        Err(e) => return Err(e),
    };
    match lex(source.as_str()) {
        Ok(tokens) => Ok(tokens),
        Err(_) => Err(CrudError::Lex),
    }
}

/// Expands the derive on the annotated item: parses it with `syn` into the
/// model (`syntax::parse_input`) and generates from that model as
/// `generate_crud_for` says. An item that does not parse is reported as
/// `CrudError::Parse`.
pub fn generate_crud(item: proc_macro2::TokenStream) -> (res: Result<LexedSource, CrudError>)
    ensures
        derive_input_parse(item) is None ==> (res matches Err(e) && e is Parse),
        derive_input_parse(item) is Some ==> exists|m: DeriveInputModel|
            models_item(m, item) && #[trigger] crud_outcome(m, res),
{
    let ghost it = item;
    let model = match syntax::parse_input(item) {
        Ok(m) => m,
        Err(e) => return Err(e),
    };
    let ghost m = model;
    let res = generate_crud_for(model);
    assert(models_item(m, it) && crud_outcome(m, res));
    res
}

/// Without a `table_name` attribute the table is the struct name lowered by
/// `str::to_lowercase` with an `s` appended, for every struct name; for an
/// ASCII name that is its ASCII lower case (`TrackItem` gives `trackitems`,
/// see `format_table_name`).
pub proof fn law_default_table_name(s: Seq<char>)
    ensures
        table_name_of(None, s) == lowercase_text(s) + "s"@,
        table_name_of(None, s).len() == lowercase_text(s).len() + 1,
{
    reveal_strlit("s");
}

/// A `table_name` attribute is used as the table name unchanged.
pub proof fn law_given_table_name(name: Seq<char>, s: Seq<char>)
    ensures
        table_name_of(Some(name), s) == name,
{
}

/// What is generated depends on the requested operations only through which of
/// `create`, `read`, `patch` and `delete` are among them: their order, their
/// repetition and any other name (such as `update`, which is not implemented)
/// change nothing, and the sections always come in the same order.
pub proof fn law_operations_matter_only_by_membership(
    pf: Seq<ParsedField>,
    st1: AttrsRead,
    st2: AttrsRead,
    s: Seq<char>,
    table: Seq<char>,
)
    requires
        st1.derived == st2.derived,
        ops_has(st1.operations, "create"@) == ops_has(st2.operations, "create"@),
        ops_has(st1.operations, "read"@) == ops_has(st2.operations, "read"@),
        ops_has(st1.operations, "patch"@) == ops_has(st2.operations, "patch"@),
        ops_has(st1.operations, "delete"@) == ops_has(st2.operations, "delete"@),
    ensures
        crud_body(pf, st1, s, table) == crud_body(pf, st2, s, table),
{
}

/// With no operation requested and no `Dummy` derive, only the two traits and
/// an empty configuration function are generated.
pub proof fn law_no_operations(pf: Seq<ParsedField>, st: AttrsRead, s: Seq<char>, table: Seq<char>)
    requires
        st.operations is None,
        !st.derived.contains("Dummy"@),
    ensures
        crud_body(pf, st, s, table) == Ok::<Seq<char>, CrudErrorView>(
            header_text() + config_fn_text(config_ident_of(table), "cfg"@),
        ),
{
    let e = Seq::<char>::empty();
    assert(header_text() + e + e + e + e + e =~= header_text());
    assert("cfg"@ + e + e + e + e =~= "cfg"@);
}

/// The field carries an attribute with the given name.
pub open spec fn has_attr(f: FieldModel, name: Seq<char>) -> bool {
    texts(f.attrs@).contains(name)
}

/// A field is marked for an operation by an attribute named after it.
/// The insertable struct draws on exactly the fields that carry a `creatable`
/// attribute, and the changeset struct on exactly those that carry
/// `patchable`, in their order in the struct.
pub proof fn law_marked_fields_are_the_annotated_ones(fs: Seq<FieldModel>)
    ensures
        marked_fields(fs.map_values(|f: FieldModel| parsed_field_of(f)), false) == fs.filter(
            |f: FieldModel| has_attr(f, "creatable"@),
        ).map_values(|f: FieldModel| parsed_field_of(f)),
        marked_fields(fs.map_values(|f: FieldModel| parsed_field_of(f)), true) == fs.filter(
            |f: FieldModel| has_attr(f, "patchable"@),
        ).map_values(|f: FieldModel| parsed_field_of(f)),
    decreases fs.len(),
{
    reveal(Seq::filter);
    let pc = |f: FieldModel| has_attr(f, "creatable"@);
    let pp = |f: FieldModel| has_attr(f, "patchable"@);
    let pf = fs.map_values(|f: FieldModel| parsed_field_of(f));
    if fs.len() == 0 {
        assert(pf =~= Seq::<ParsedField>::empty());
        assert(fs.filter(pc) =~= Seq::<FieldModel>::empty());
        assert(fs.filter(pp) =~= Seq::<FieldModel>::empty());
    } else {
        let init = fs.drop_last();
        let x = fs.last();
        law_marked_fields_are_the_annotated_ones(init);
        lemma_inner_flags_are_markers(texts(x.attrs@));
        assert(pf.drop_last() =~= init.map_values(|f: FieldModel| parsed_field_of(f)));
        assert(pf.last() == parsed_field_of(x));
        assert(fs.filter(pc).map_values(|f: FieldModel| parsed_field_of(f)) =~= if pc(x) {
            init.filter(pc).map_values(|f: FieldModel| parsed_field_of(f)).push(parsed_field_of(x))
        } else {
            init.filter(pc).map_values(|f: FieldModel| parsed_field_of(f))
        });
        assert(fs.filter(pp).map_values(|f: FieldModel| parsed_field_of(f)) =~= if pp(x) {
            init.filter(pp).map_values(|f: FieldModel| parsed_field_of(f)).push(parsed_field_of(x))
        } else {
            init.filter(pp).map_values(|f: FieldModel| parsed_field_of(f))
        });
    }
}

/// The operations requested by an attribute, when it is a well-formed
/// `#[operations("..", ..)]`.
pub open spec fn operations_list(a: AttributeModel) -> Option<Seq<Seq<char>>> {
    if a.name@ == "operations"@ {
        match a.meta {
            MetaModel::List(ns) => nested_strs(ns@),
            _ => None,
        }
    } else {
        None
    }
}

/// Two readings of the attributes agree on everything generation uses.
pub open spec fn equivalent_reads(a: AttrsRead, b: AttrsRead) -> bool {
    &&& a.derived == b.derived
    &&& a.table_name == b.table_name
    &&& ops_has(a.operations, "create"@) == ops_has(b.operations, "create"@)
    &&& ops_has(a.operations, "read"@) == ops_has(b.operations, "read"@)
    &&& ops_has(a.operations, "patch"@) == ops_has(b.operations, "patch"@)
    &&& ops_has(a.operations, "delete"@) == ops_has(b.operations, "delete"@)
}

/// Reading the same attribute keeps two equivalent readings equivalent (or
/// fails alike).
proof fn lemma_step_keeps_equivalence(st1: AttrsRead, st2: AttrsRead, a: AttributeModel)
    requires
        equivalent_reads(st1, st2),
    ensures
        match (attr_step(st1, a), attr_step(st2, a)) {
            (Ok(x), Ok(y)) => equivalent_reads(x, y),
            (Err(e1), Err(e2)) => e1 == e2,
            _ => false,
        },
{
}

/// Two `operations` lists with the same members among the four operations
/// give equivalent readings.
proof fn lemma_operations_step(st1: AttrsRead, st2: AttrsRead, a1: AttributeModel, a2: AttributeModel)
    requires
        equivalent_reads(st1, st2),
        operations_list(a1) is Some,
        operations_list(a2) is Some,
        ops_has(operations_list(a1), "create"@) == ops_has(operations_list(a2), "create"@),
        ops_has(operations_list(a1), "read"@) == ops_has(operations_list(a2), "read"@),
        ops_has(operations_list(a1), "patch"@) == ops_has(operations_list(a2), "patch"@),
        ops_has(operations_list(a1), "delete"@) == ops_has(operations_list(a2), "delete"@),
    ensures
        attr_step(st1, a1) matches Ok(x) && attr_step(st2, a2) matches Ok(y) && equivalent_reads(x, y),
{
    reveal_strlit("operations");
    reveal_strlit("derive");
    assert("operations"@ != "derive"@) by {
        assert("operations"@.len() != "derive"@.len());
    }
}

/// Attribute lists that differ only in one well-formed `operations` attribute
/// with the same members among the four operations read equivalently, up to any length.
proof fn lemma_reads_equivalent(a1: Seq<AttributeModel>, a2: Seq<AttributeModel>, k: int, n: int)
    requires
        a1.len() == a2.len(),
        0 <= k < a1.len(),
        0 <= n <= a1.len(),
        forall|j: int| 0 <= j < a1.len() && j != k ==> a1[j] == a2[j],
        operations_list(a1[k]) is Some,
        operations_list(a2[k]) is Some,
        ops_has(operations_list(a1[k]), "create"@) == ops_has(operations_list(a2[k]), "create"@),
        ops_has(operations_list(a1[k]), "read"@) == ops_has(operations_list(a2[k]), "read"@),
        ops_has(operations_list(a1[k]), "patch"@) == ops_has(operations_list(a2[k]), "patch"@),
        ops_has(operations_list(a1[k]), "delete"@) == ops_has(operations_list(a2[k]), "delete"@),
    ensures
        match (attrs_read(a1.take(n)), attrs_read(a2.take(n))) {
            (Ok(x), Ok(y)) => equivalent_reads(x, y),
            (Err(e1), Err(e2)) => e1 == e2,
            _ => false,
        },
    decreases n,
{
    if n > 0 {
        lemma_reads_equivalent(a1, a2, k, n - 1);
        assert(a1.take(n).drop_last() =~= a1.take(n - 1));
        assert(a2.take(n).drop_last() =~= a2.take(n - 1));
        assert(a1.take(n).last() == a1[n - 1]);
        assert(a2.take(n).last() == a2[n - 1]);
        match (attrs_read(a1.take(n - 1)), attrs_read(a2.take(n - 1))) {
            (Ok(x), Ok(y)) => {
                if n - 1 == k {
                    lemma_operations_step(x, y, a1[k], a2[k]);
                } else {
                    lemma_step_keeps_equivalence(x, y, a1[n - 1]);
                }
            },
            _ => {},
        }
    } else {
        assert(a1.take(0) =~= Seq::<AttributeModel>::empty());
        assert(a2.take(0) =~= Seq::<AttributeModel>::empty());
    }
}

/// Generation depends on the `operations` attribute only through which of
/// `create`, `read`, `patch` and `delete` it lists: two items that differ only
/// in one well-formed `operations` list with the same such members (the order,
/// repetitions and any other names, such as `update`, may differ) expand alike.
pub proof fn law_operations_attribute_matters_only_by_membership(i1: DeriveInputModel, i2: DeriveInputModel, k: int)
    requires
        i1.ident == i2.ident,
        i1.data == i2.data,
        i1.attrs@.len() == i2.attrs@.len(),
        0 <= k < i1.attrs@.len(),
        forall|j: int| 0 <= j < i1.attrs@.len() && j != k ==> i1.attrs@[j] == i2.attrs@[j],
        operations_list(i1.attrs@[k]) is Some,
        operations_list(i2.attrs@[k]) is Some,
        ops_has(operations_list(i1.attrs@[k]), "create"@) == ops_has(operations_list(i2.attrs@[k]), "create"@),
        ops_has(operations_list(i1.attrs@[k]), "read"@) == ops_has(operations_list(i2.attrs@[k]), "read"@),
        ops_has(operations_list(i1.attrs@[k]), "patch"@) == ops_has(operations_list(i2.attrs@[k]), "patch"@),
        ops_has(operations_list(i1.attrs@[k]), "delete"@) == ops_has(operations_list(i2.attrs@[k]), "delete"@),
    ensures
        crud_source(i1) == crud_source(i2),
{
    let a1 = i1.attrs@;
    let a2 = i2.attrs@;
    lemma_reads_equivalent(a1, a2, k, a1.len() as int);
    assert(a1.take(a1.len() as int) =~= a1);
    assert(a2.take(a2.len() as int) =~= a2);
    match (attrs_read(a1), attrs_read(a2)) {
        (Ok(x), Ok(y)) => {
            let table = table_name_of(x.table_name, i1.ident@);
            match data_fields(i1.data) {
                Ok(fs) => {
                    law_operations_matter_only_by_membership(
                        fs.map_values(|f: FieldModel| parsed_field_of(f)),
                        x,
                        y,
                        i1.ident@,
                        table,
                    );
                },
                Err(_) => {},
            }
        },
        _ => {},
    }
}
} // verus!
