//! The `GET` endpoints for one record and for several.
use vstd::prelude::*;
use crate::lexical::{str_literal_spelling, string_literal};

verus! {

/// The `read` handler at the literal `ewp_lit` and the `get` handler at `ep_lit`.
pub open spec fn read_endpoints_text(s: Seq<char>, ep_lit: Seq<char>, ewp_lit: Seq<char>) -> Seq<char> {
    "\n#[get("@ + ewp_lit
        + ")]\nasync fn read(path: web::Path<i32>) -> impl Responder {\n    let id = path.into_inner();\n    let r = json!("@
        + s
        + "::read(id, &establish_connection()));\n\n    HttpResponse::Ok()\n        .content_type(ContentType::json())\n        .body(r.to_string())\n}\n"@
        + "\n#[get("@ + ep_lit + ")]\nasync fn get() -> impl Responder {\n    let r = json!("@ + s
        + "::get(50, &establish_connection()));\n\n    HttpResponse::Ok()\n        .content_type(ContentType::json())\n        .body(r.to_string())\n}\n"@
}

/// Generates the `read` handler for `GET endpoint_w_param` and the `get`
/// handler for `GET endpoint`, and registers both.
pub fn generate_read_endpoints(
    r: String,
    s_ident: &str,
    endpoint: &str,
    endpoint_w_param: &str,
    endpoint_config: String,
) -> (res: (String, String))
    ensures
        res.0@ == r@ + read_endpoints_text(
            s_ident@,
            str_literal_spelling(endpoint@),
            str_literal_spelling(endpoint_w_param@),
        ),
        res.1@ == endpoint_config@ + ".service(read).service(get)"@,
{
    let ep = string_literal(endpoint);
    let ewp = string_literal(endpoint_w_param);
    let mut out = String::from_str("\n#[get(");
    out.append(ewp.as_str());
    out.append(")]\nasync fn read(path: web::Path<i32>) -> impl Responder {\n    let id = path.into_inner();\n    let r = json!(");
    out.append(s_ident);
    out.append("::read(id, &establish_connection()));\n\n    HttpResponse::Ok()\n        .content_type(ContentType::json())\n        .body(r.to_string())\n}\n");
    out.append("\n#[get(");
    out.append(ep.as_str());
    out.append(")]\nasync fn get() -> impl Responder {\n    let r = json!(");
    out.append(s_ident);
    out.append("::get(50, &establish_connection()));\n\n    HttpResponse::Ok()\n        .content_type(ContentType::json())\n        .body(r.to_string())\n}\n");
    let mut code = r;
    code.append(out.as_str());
    let mut config = endpoint_config;
    config.append(".service(read).service(get)");
    (code, config)
}

} // verus!
