//! The Diesel function `patch` (update one record by id).
use vstd::prelude::*;

verus! {

/// The `impl` block with `patch`.
pub open spec fn patch_func_text(ps: Seq<char>, s: Seq<char>) -> Seq<char> {
    "\nimpl "@ + s + " {\n    pub fn patch(id: i32, data: "@ + ps + ", c: &PgConnection) -> "@ + s
        + " {\n        diesel::update(table.filter(s_id.eq(id)))\n            .set(data)\n            .get_result(c)\n            .expect(\"error patch\")\n    }\n}\n"@
}

/// Generates `patch` on `s_ident`, taking the changeset struct `ps_id`.
pub fn generate_patch_func(r: String, ps_id: &str, s_ident: &str) -> (res: String)
    ensures
        res@ == r@ + patch_func_text(ps_id@, s_ident@),
{
    let mut out = String::from_str("\nimpl ");
    out.append(s_ident);
    out.append(" {\n    pub fn patch(id: i32, data: ");
    out.append(ps_id);
    out.append(", c: &PgConnection) -> ");
    out.append(s_ident);
    out.append(" {\n        diesel::update(table.filter(s_id.eq(id)))\n            .set(data)\n            .get_result(c)\n            .expect(\"error patch\")\n    }\n}\n");
    let mut res = r;
    res.append(out.as_str());
    res
}

} // verus!
