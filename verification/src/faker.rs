//! The `Generate` impl that fills a struct with fake data (for structs deriving `Dummy`).
use vstd::prelude::*;
use crate::commons::{fails_with, CrudError, CrudErrorView};
use crate::ident::{is_valid_ident_text, valid_ident_text};

verus! {

/// The `Generate` impl for the struct `s`.
pub open spec fn faker_text(s: Seq<char>) -> Seq<char> {
    "\nimpl Generate for "@ + s + " {\n    fn generate() -> "@ + s + " {\n        let r: "@ + s
        + " = Faker.fake();\n        r\n    }\n\n    fn generate_multiple(amount: u32) -> Vec<Self> {\n        let mut r: Vec<Self> = vec![];\n        for _n in 1..amount  {\n            let g: Self = Self::generate();\n            r.push(g)\n        }\n\n        r\n    }\n}\n"@
}

/// Generates `impl Generate for <s_id>`: `generate` makes one value with
/// `Faker`, `generate_multiple(amount)` makes `amount - 1` of them (the loop
/// runs over `1..amount`). The struct name must be an identifier.
pub fn implement_faker(r: String, s_id: &str) -> (res: Result<String, CrudError>)
    ensures
        valid_ident_text(s_id@) ==> (res matches Ok(out) && out@ == r@ + faker_text(s_id@)),
        !valid_ident_text(s_id@) ==> fails_with(res, CrudErrorView::InvalidIdent(s_id@)),
{
    if !is_valid_ident_text(s_id) {
        return Err(CrudError::InvalidIdent(String::from_str(s_id)));
    }
    let mut out = String::from_str("\nimpl Generate for ");
    out.append(s_id);
    out.append(" {\n    fn generate() -> ");
    out.append(s_id);
    out.append(" {\n        let r: ");
    out.append(s_id);
    out.append(" = Faker.fake();\n        r\n    }\n\n    fn generate_multiple(amount: u32) -> Vec<Self> {\n        let mut r: Vec<Self> = vec![];\n        for _n in 1..amount  {\n            let g: Self = Self::generate();\n            r.push(g)\n        }\n\n        r\n    }\n}\n");
    let mut res = r;
    res.append(out.as_str());
    Ok(res)
}

} // verus!
