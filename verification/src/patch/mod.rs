//! The `patch` operation: changeset struct, Diesel update function and a PATCH endpoint.
use vstd::prelude::*;
use crate::commons::{fails_with, join, CrudError, CrudErrorView, ParsedField};
use crate::create::struct_gen::selected_fields;
use crate::ident::{is_valid_ident_text, valid_ident_text};
use crate::lexical::str_literal_spelling;
use self::endpoint_gen::{generate_patch_endpoint, patch_endpoint_text};
use self::func_gen::{generate_patch_func, patch_func_text};
use self::struct_gen::{generate_patch_struct, patch_decl_of, patch_struct_text};

pub mod struct_gen;
pub mod func_gen;
pub mod endpoint_gen;

verus! {

/// The name of the changeset struct: `Patch` followed by the struct's name.
pub open spec fn patch_struct_name(s_id: Seq<char>) -> Seq<char> {
    "Patch"@ + s_id
}

/// The code that `patch` adds for the selected fields `m`.
pub open spec fn patch_code(
    m: Seq<ParsedField>,
    lt: Seq<char>,
    table_name_quote: Seq<char>,
    ps: Seq<char>,
    s: Seq<char>,
    endpoint_w_param: Seq<char>,
) -> Seq<char> {
    patch_struct_text(table_name_quote, ps, lt, join(m.map_values(|f: ParsedField| patch_decl_of(f, lt)), ",\n"@))
        + patch_func_text(ps, s) + patch_endpoint_text(s, ps, str_literal_spelling(endpoint_w_param))
}

/// Generates everything for the `patch` operation and registers its endpoint.
/// The name `Patch<Struct>` must be an identifier, and the fields must pass
/// `selected_fields`; otherwise the first failure is returned.
pub fn generate_patch(
    data_struct: &Vec<ParsedField>,
    main_lifetime: &str,
    r: String,
    table_name_quote: &str,
    s_id: &str,
    s_ident: &str,
    endpoint_w_param: &str,
    endpoint_config: String,
) -> (res: Result<(String, String), CrudError>)
    ensures
        !valid_ident_text(patch_struct_name(s_id@)) ==> fails_with(
            res,
            CrudErrorView::InvalidIdent(patch_struct_name(s_id@)),
        ),
        valid_ident_text(patch_struct_name(s_id@)) ==> match selected_fields(data_struct@, true) {
            Err(e) => fails_with(res, e),
            Ok(m) => res matches Ok((code, config)) && code@ == r@ + patch_code(
                m,
                main_lifetime@,
                table_name_quote@,
                patch_struct_name(s_id@),
                s_ident@,
                endpoint_w_param@,
            ) && config@ == endpoint_config@ + ".service(patch)"@,
        },
{
    let mut ps_id = String::from_str("Patch");
    ps_id.append(s_id);
    if !is_valid_ident_text(ps_id.as_str()) {
        return Err(CrudError::InvalidIdent(ps_id));
    }
    let r1 = match generate_patch_struct(data_struct, main_lifetime, r, table_name_quote, ps_id.as_str()) {
        Ok(v) => v,
        Err(e) => return Err(e),
    };
    let r2 = generate_patch_func(r1, ps_id.as_str(), s_ident);
    let (r3, config) = generate_patch_endpoint(r2, s_ident, ps_id.as_str(), endpoint_w_param, endpoint_config);
    assert(r3@ =~= r@ + patch_code(
        selected_fields(data_struct@, true)->Ok_0,
        main_lifetime@,
        table_name_quote@,
        ps_id@,
        s_ident@,
        endpoint_w_param@,
    ));
    Ok((r3, config))
}

} // verus!
