//! The `PATCH` endpoint; it answers an empty body with `400 Bad Request`.
use vstd::prelude::*;
use crate::lexical::{str_literal_spelling, string_literal};

verus! {

/// The `patch` handler at the literal `ewp_lit`.
pub open spec fn patch_endpoint_text(s: Seq<char>, ps: Seq<char>, ewp_lit: Seq<char>) -> Seq<char> {
    "\n#[patch("@ + ewp_lit
        + ")]\nasync fn patch(path: web::Path<i32>, req_body: String) -> impl Responder {\n    let id = path.into_inner();\n    if req_body.is_empty() || req_body.eq(\"{}\") {\n        return HttpResponse::BadRequest().body(\"No data passed\");\n    }\n    let req: "@
        + ps + " = serde_json::from_str(req_body.as_str()).unwrap();\n    let t = json!("@ + s
        + "::patch(id, req, &establish_connection()));\n\n    HttpResponse::Ok()\n        .content_type(ContentType::json())\n        .body(t.to_string())\n}\n"@
}

/// Generates the `patch` handler for `PATCH endpoint_w_param` and registers it.
pub fn generate_patch_endpoint(
    r: String,
    s_ident: &str,
    ps_id: &str,
    endpoint_w_param: &str,
    endpoint_config: String,
) -> (res: (String, String))
    ensures
        res.0@ == r@ + patch_endpoint_text(s_ident@, ps_id@, str_literal_spelling(endpoint_w_param@)),
        res.1@ == endpoint_config@ + ".service(patch)"@,
{
    let ewp = string_literal(endpoint_w_param);
    let mut out = String::from_str("\n#[patch(");
    out.append(ewp.as_str());
    out.append(")]\nasync fn patch(path: web::Path<i32>, req_body: String) -> impl Responder {\n    let id = path.into_inner();\n    if req_body.is_empty() || req_body.eq(\"{}\") {\n        return HttpResponse::BadRequest().body(\"No data passed\");\n    }\n    let req: ");
    out.append(ps_id);
    out.append(" = serde_json::from_str(req_body.as_str()).unwrap();\n    let t = json!(");
    out.append(s_ident);
    out.append("::patch(id, req, &establish_connection()));\n\n    HttpResponse::Ok()\n        .content_type(ContentType::json())\n        .body(t.to_string())\n}\n");
    let mut code = r;
    code.append(out.as_str());
    let mut config = endpoint_config;
    config.append(".service(patch)");
    (code, config)
}

} // verus!
