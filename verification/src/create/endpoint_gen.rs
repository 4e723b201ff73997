//! The `POST` endpoint that inserts a record.
use vstd::prelude::*;
use crate::lexical::{str_literal_spelling, string_literal};

verus! {

/// The `create` handler, routed at the string literal `endpoint_lit`.
pub open spec fn create_endpoint_text(s: Seq<char>, ns: Seq<char>, endpoint_lit: Seq<char>) -> Seq<char> {
    "\n#[post("@ + endpoint_lit + ")]\nasync fn create(req_body: String) -> impl Responder {\n    let req: "@ + ns
        + " = serde_json::from_str(req_body.as_str()).unwrap();\n    let t = json!("@ + s
        + "::create(req, &establish_connection()));\n\n    HttpResponse::Ok()\n        .content_type(ContentType::json())\n        .body(t.to_string())\n}\n"@
}

/// Generates the `create` handler for `POST endpoint` and registers it in the
/// service configuration.
pub fn generate_create_endpoints(r: String, s_ident: &str, ns_id: &str, endpoint: &str, endpoint_config: String) -> (res: (
    String,
    String,
))
    ensures
        res.0@ == r@ + create_endpoint_text(s_ident@, ns_id@, str_literal_spelling(endpoint@)),
        res.1@ == endpoint_config@ + ".service(create)"@,
{
    let lit = string_literal(endpoint);
    let mut out = String::from_str("\n#[post(");
    out.append(lit.as_str());
    out.append(")]\nasync fn create(req_body: String) -> impl Responder {\n    let req: ");
    out.append(ns_id);
    out.append(" = serde_json::from_str(req_body.as_str()).unwrap();\n    let t = json!(");
    out.append(s_ident);
    out.append("::create(req, &establish_connection()));\n\n    HttpResponse::Ok()\n        .content_type(ContentType::json())\n        .body(t.to_string())\n}\n");
    let mut code = r;
    code.append(out.as_str());
    let mut config = endpoint_config;
    config.append(".service(create)");
    (code, config)
}

} // verus!
