//! The Diesel function `delete` (one record by id).
use vstd::prelude::*;

verus! {

/// The `impl` block with `delete`.
pub open spec fn delete_func_text(s: Seq<char>) -> Seq<char> {
    "\nimpl "@ + s
        + " {\n    pub fn delete(id: i32, c: &PgConnection) {\n        diesel::delete(table.filter(s_id.eq(id)))\n            .execute(c)\n            .expect(\"Error\");\n    }\n}\n"@
}

/// Generates `delete` on `s_ident`.
pub fn generate_delete_func(r: String, s_ident: &str) -> (res: String)
    ensures
        res@ == r@ + delete_func_text(s_ident@),
{
    let mut out = String::from_str("\nimpl ");
    out.append(s_ident);
    out.append(" {\n    pub fn delete(id: i32, c: &PgConnection) {\n        diesel::delete(table.filter(s_id.eq(id)))\n            .execute(c)\n            .expect(\"Error\");\n    }\n}\n");
    let mut res = r;
    res.append(out.as_str());
    res
}

} // verus!
