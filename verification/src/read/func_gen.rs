//! The Diesel query functions `read` (one record by id) and `get` (several records).
use vstd::prelude::*;

verus! {

/// The `impl` block with `read` and `get`.
pub open spec fn read_funcs_text(s: Seq<char>) -> Seq<char> {
    "\nimpl "@ + s + " {\n    pub fn read(id: i32, c: &PgConnection) -> "@ + s
        + " {\n        table.find(id)\n                .first(c)\n                .expect(\"Could not find track\")\n    }\n"@
        + "\n    pub fn get(amount: i64, c: &PgConnection) -> Vec<"@ + s
        + "> {\n        table.limit(amount)\n            .load::<"@ + s
        + ">(c)\n            .expect(\"Error loading tracks\")\n    }\n}\n"@
}

/// Generates `read` and `get` on `s_ident`.
pub fn generate_read_funcs(r: String, s_ident: &str) -> (res: String)
    ensures
        res@ == r@ + read_funcs_text(s_ident@),
{
    let mut out = String::from_str("\nimpl ");
    out.append(s_ident);
    out.append(" {\n    pub fn read(id: i32, c: &PgConnection) -> ");
    out.append(s_ident);
    out.append(" {\n        table.find(id)\n                .first(c)\n                .expect(\"Could not find track\")\n    }\n");
    out.append("\n    pub fn get(amount: i64, c: &PgConnection) -> Vec<");
    out.append(s_ident);
    out.append("> {\n        table.limit(amount)\n            .load::<");
    out.append(s_ident);
    out.append(">(c)\n            .expect(\"Error loading tracks\")\n    }\n}\n");
    let mut res = r;
    res.append(out.as_str());
    res
}

} // verus!
