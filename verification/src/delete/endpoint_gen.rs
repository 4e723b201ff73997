//! The `DELETE` endpoint.
use vstd::prelude::*;
use crate::lexical::{str_literal_spelling, string_literal};

verus! {

/// The `delete` handler at the literal `ewp_lit`.
pub open spec fn delete_endpoint_text(s: Seq<char>, ewp_lit: Seq<char>) -> Seq<char> {
    "\n#[delete("@ + ewp_lit
        + ")]\nasync fn delete(path: web::Path<i32>) -> impl Responder {\n    let id = path.into_inner();\n    let r = json!("@
        + s
        + "::delete(id, &establish_connection()));\n\n    HttpResponse::Ok()\n        .content_type(ContentType::json())\n        .body(r.to_string())\n}\n"@
}

/// Generates the `delete` handler for `DELETE endpoint_w_param` and registers it.
pub fn generate_delete_endpoints(r: String, s_ident: &str, endpoint_w_param: &str, endpoint_config: String) -> (res: (
    String,
    String,
))
    ensures
        res.0@ == r@ + delete_endpoint_text(s_ident@, str_literal_spelling(endpoint_w_param@)),
        res.1@ == endpoint_config@ + ".service(delete)"@,
{
    let ewp = string_literal(endpoint_w_param);
    let mut out = String::from_str("\n#[delete(");
    out.append(ewp.as_str());
    out.append(")]\nasync fn delete(path: web::Path<i32>) -> impl Responder {\n    let id = path.into_inner();\n    let r = json!(");
    out.append(s_ident);
    out.append("::delete(id, &establish_connection()));\n\n    HttpResponse::Ok()\n        .content_type(ContentType::json())\n        .body(r.to_string())\n}\n");
    let mut code = r;
    code.append(out.as_str());
    let mut config = endpoint_config;
    config.append(".service(delete)");
    (code, config)
}

} // verus!
