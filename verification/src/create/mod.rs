//! The `create` operation: insertable struct, Diesel insert functions and a POST endpoint.
use vstd::prelude::*;
use crate::commons::{
    create_elem_text, fails_with, field_decl_text, join, ref_type_text, CrudError, CrudErrorView, ParsedField,
    TypeModel,
};
use crate::ident::{is_valid_ident_text, valid_ident_text};
use crate::lexical::str_literal_spelling;
use self::endpoint_gen::{create_endpoint_text, generate_create_endpoints};
use self::func_gen::{create_funcs_text, generate_create_funcs, ident_texts, param_texts};
use self::struct_gen::{
    create_field_of, create_field_texts, create_fields_of, create_from_text, create_init_texts, create_struct_text,
    generate_create_struct, selected_fields, CreateField,
};

pub mod struct_gen;
pub mod func_gen;
pub mod endpoint_gen;

verus! {

/// The name of the insertable struct: `New` followed by the struct's name.
pub open spec fn new_struct_name(s_id: Seq<char>) -> Seq<char> {
    "New"@ + s_id
}

/// The referenced type of a field in the insertable struct (a path, with `String` renamed to `str`).
pub open spec fn create_elem_of(f: ParsedField) -> Seq<char> {
    match f.ty {
        TypeModel::Path(t) => create_elem_text(t),
        TypeModel::Other => Seq::<char>::empty(),
    }
}

/// The declaration of `f` in the insertable struct: `vis ident: &'lt T`.
pub open spec fn create_decl_of(f: ParsedField, lt: Seq<char>) -> Seq<char> {
    field_decl_text(f.vis@, f.ident@, ref_type_text(Some(lt), create_elem_of(f)))
}

/// The initialiser of `f` in the conversions: `ident: x.ident.as_ref()`.
pub open spec fn create_init_of(f: ParsedField) -> Seq<char> {
    f.ident@ + ": x."@ + f.ident@ + ".as_ref()"@
}

/// The parameter for `f` in `create_from`: `ident: &T`.
pub open spec fn create_param_of(f: ParsedField) -> Seq<char> {
    f.ident@ + ": "@ + ref_type_text(None, create_elem_of(f))
}

/// The code that `create` adds for the selected fields `m`.
pub open spec fn create_code(
    m: Seq<ParsedField>,
    lt: Seq<char>,
    table_name_quote: Seq<char>,
    ns: Seq<char>,
    s: Seq<char>,
    endpoint: Seq<char>,
) -> Seq<char> {
    create_struct_text(table_name_quote, ns, lt, join(m.map_values(|f: ParsedField| create_decl_of(f, lt)), ",\n"@))
        + create_from_text(s, ns, join(m.map_values(|f: ParsedField| create_init_of(f)), ", "@))
        + create_funcs_text(
            ns,
            s,
            join(m.map_values(|f: ParsedField| create_param_of(f)), ", "@),
            join(m.map_values(|f: ParsedField| f.ident@), ",\n            "@),
        ) + create_endpoint_text(s, ns, str_literal_spelling(endpoint))
}

/// The texts of create fields are those of the fields they were made from.
proof fn lemma_create_texts(cs: Seq<CreateField>, m: Seq<ParsedField>, lt: Seq<char>)
    requires
        create_fields_of(cs, m, lt),
    ensures
        create_field_texts(cs) == m.map_values(|f: ParsedField| create_decl_of(f, lt)),
        create_init_texts(cs) == m.map_values(|f: ParsedField| create_init_of(f)),
        param_texts(cs) == m.map_values(|f: ParsedField| create_param_of(f)),
        ident_texts(cs) == m.map_values(|f: ParsedField| f.ident@),
{
    assert forall|i: int| 0 <= i < cs.len() implies #[trigger] create_field_texts(cs)[i] == create_decl_of(m[i], lt) by {
        assert(create_field_of(cs[i], m[i], lt));
    }
    assert(create_field_texts(cs) =~= m.map_values(|f: ParsedField| create_decl_of(f, lt)));
    assert forall|i: int| 0 <= i < cs.len() implies #[trigger] create_init_texts(cs)[i] == create_init_of(m[i]) by {
        assert(create_field_of(cs[i], m[i], lt));
    }
    assert(create_init_texts(cs) =~= m.map_values(|f: ParsedField| create_init_of(f)));
    assert forall|i: int| 0 <= i < cs.len() implies #[trigger] param_texts(cs)[i] == create_param_of(m[i]) by {
        assert(create_field_of(cs[i], m[i], lt));
    }
    assert(param_texts(cs) =~= m.map_values(|f: ParsedField| create_param_of(f)));
    assert forall|i: int| 0 <= i < cs.len() implies #[trigger] ident_texts(cs)[i] == m[i].ident@ by {
        assert(create_field_of(cs[i], m[i], lt));
    }
    assert(ident_texts(cs) =~= m.map_values(|f: ParsedField| f.ident@));
}

/// Generates everything for the `create` operation and registers its endpoint.
/// The name `New<Struct>` must be an identifier, and the fields must pass
/// `selected_fields`; otherwise the first failure is returned.
pub fn generate_create(
    data_struct: &Vec<ParsedField>,
    main_lifetime: &str,
    r: String,
    table_name_quote: &str,
    s_id: &str,
    s_ident: &str,
    endpoint: &str,
    endpoint_config: String,
) -> (res: Result<(String, String), CrudError>)
    ensures
        !valid_ident_text(new_struct_name(s_id@)) ==> fails_with(
            res,
            CrudErrorView::InvalidIdent(new_struct_name(s_id@)),
        ),
        valid_ident_text(new_struct_name(s_id@)) ==> match selected_fields(data_struct@, false) {
            Err(e) => fails_with(res, e),
            Ok(m) => res matches Ok((code, config)) && code@ == r@ + create_code(
                    m,
                    main_lifetime@,
                    table_name_quote@,
                    new_struct_name(s_id@),
                    s_ident@,
                    endpoint@,
                ) && config@ == endpoint_config@ + ".service(create)"@,
        },
{
    let mut ns_id = String::from_str("New");
    ns_id.append(s_id);
    if !is_valid_ident_text(ns_id.as_str()) {
        return Err(CrudError::InvalidIdent(ns_id));
    }
    let (r1, create_fs) = match generate_create_struct(data_struct, main_lifetime, r, table_name_quote, ns_id.as_str(), s_ident) {
        Ok(v) => v,
        Err(e) => return Err(e),
    };
    let ghost cs = create_fs@;
    proof {
        lemma_create_texts(cs, selected_fields(data_struct@, false)->Ok_0, main_lifetime@);
    }
    let r2 = generate_create_funcs(r1, ns_id.as_str(), s_ident, create_fs);
    let (r3, config) = generate_create_endpoints(r2, s_ident, ns_id.as_str(), endpoint, endpoint_config);
    assert(r3@ =~= r@ + create_code(selected_fields(data_struct@, false)->Ok_0, main_lifetime@, table_name_quote@, ns_id@, s_ident@, endpoint@));
    Ok((r3, config))
}


/// `create_from` takes each field of the insertable struct as a
/// parameter: the field's name with the same referenced type, only without
/// the struct's lifetime.
pub proof fn law_create_from_params_match_struct_fields(f: ParsedField, lt: Seq<char>)
    ensures
        create_decl_of(f, lt) == field_decl_text(f.vis@, f.ident@, "&"@ + lt + " "@ + create_elem_of(f)),
        create_param_of(f) == f.ident@ + ": "@ + ("&"@ + create_elem_of(f)),
{
}
} // verus!
