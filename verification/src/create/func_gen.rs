//! The Diesel insert functions `create`, `create_multiple` and `create_from`.
use vstd::prelude::*;
use crate::commons::{join, join_all, texts};
use super::struct_gen::{type_ref_text, CreateField, TypeRefModel};

verus! {

/// A parameter of `create_from`: a create field's name and its type without lifetime.
struct ParamCreateField {
    ident: String,
    ty: TypeRefModel,
}

/// A create field named in the struct literal of `create_from`.
struct IdentCreateField {
    ident: String,
}

/// The parameter declaration `ident: &ty`.
pub open spec fn param_text(c: CreateField) -> Seq<char> {
    c.ident@ + ": "@ + type_ref_text(TypeRefModel { lifetime: None, elem: c.ty.elem })
}

/// The parameter declarations of `create_from`, one per create field.
pub open spec fn param_texts(cs: Seq<CreateField>) -> Seq<Seq<char>> {
    cs.map_values(|c: CreateField| param_text(c))
}

/// The names of the create fields.
pub open spec fn ident_texts(cs: Seq<CreateField>) -> Seq<Seq<char>> {
    cs.map_values(|c: CreateField| c.ident@)
}

impl ParamCreateField {
    spec fn text(self) -> Seq<char> {
        self.ident@ + ": "@ + type_ref_text(self.ty)
    }

    fn to_tokens(&self) -> (res: String)
        ensures
            res@ == self.text(),
    {
        let mut out = self.ident.clone();
        out.append(": ");
        out.append("&");
        match &self.ty.lifetime {
            Some(l) => {
                out.append(l.as_str());
                out.append(" ");
            },
            None => {},
        }
        out.append(self.ty.elem.as_str());
        out
    }
}

impl IdentCreateField {
    fn to_tokens(&self) -> (res: String)
        ensures
            res@ == self.ident@,
    {
        self.ident.clone()
    }
}

/// The parameters and the field names of `create_from`, in the order of the create fields.
fn generate_fields(create_fs: &Vec<CreateField>) -> (res: (Vec<ParamCreateField>, Vec<IdentCreateField>))
    ensures
        res.0@.len() == create_fs@.len(),
        res.1@.len() == create_fs@.len(),
        forall|i: int| 0 <= i < create_fs@.len() ==> (#[trigger] res.0@[i]).ident@ == create_fs@[i].ident@,
        forall|i: int| 0 <= i < create_fs@.len() ==> (#[trigger] res.0@[i]).ty.lifetime is None,
        forall|i: int| 0 <= i < create_fs@.len() ==> (#[trigger] res.0@[i]).ty.elem@ == create_fs@[i].ty.elem@,
        forall|i: int| 0 <= i < create_fs@.len() ==> (#[trigger] res.0@[i]).text() == param_text(create_fs@[i]),
        forall|i: int| 0 <= i < create_fs@.len() ==> (#[trigger] res.1@[i]).ident@ == create_fs@[i].ident@,
{
    let mut params: Vec<ParamCreateField> = Vec::new();
    let mut idents: Vec<IdentCreateField> = Vec::new();
    let n: usize = create_fs.len();
    let mut i: usize = 0;
    while i < n
        invariant
            n == create_fs@.len(),
            i <= n,
            params@.len() == i,
            idents@.len() == i,
            forall|j: int| 0 <= j < i ==> (#[trigger] params@[j]).ident@ == create_fs@[j].ident@,
            forall|j: int| 0 <= j < i ==> (#[trigger] params@[j]).ty.lifetime is None,
            forall|j: int| 0 <= j < i ==> (#[trigger] params@[j]).ty.elem@ == create_fs@[j].ty.elem@,
            forall|j: int| 0 <= j < i ==> (#[trigger] params@[j]).text() == param_text(create_fs@[j]),
            forall|j: int| 0 <= j < i ==> (#[trigger] idents@[j]).ident@ == create_fs@[j].ident@,
        decreases n - i,
    {
        let x = &create_fs[i];
        params.push(ParamCreateField {
            ident: x.ident.clone(),
            ty: TypeRefModel { lifetime: None, elem: x.ty.elem.clone() },
        });
        idents.push(IdentCreateField { ident: x.ident.clone() });
        i = i + 1;
    }
    (params, idents)
}

/// The `impl` block with the three insert functions.
pub open spec fn create_funcs_text(ns: Seq<char>, s: Seq<char>, params: Seq<char>, idents: Seq<char>) -> Seq<char> {
    "\nimpl "@ + s + " {\n    pub fn create(x: "@ + ns + ", c: &PgConnection) -> "@ + s
        + " {\n        diesel::insert_into(table)\n            .values(&x)\n            .get_result(c)\n            .expect(\"Error saving new track\")\n    }\n"@
        + "\n    pub fn create_multiple(x: Vec<"@ + ns + ">, c: &PgConnection) -> Vec<"@ + s
        + "> {\n        diesel::insert_into(table)\n            .values(&x)\n            .get_results(c)\n            .expect(\"Error saving new tracks\")\n    }\n"@
        + "\n    pub fn create_from("@ + params + ", c: &PgConnection) -> Vec<"@ + s
        + "> {\n        let new_s = "@ + ns + " {\n            "@ + idents
        + "\n        };\n        diesel::insert_into(table)\n            .values(&new_s)\n            .get_results(c)\n            .expect(\"Error saving new tracks\")\n    }\n}\n"@
}

/// Generates `create` (one record), `create_multiple` (several) and
/// `create_from` (one record given field by field) on `s_ident`.
pub fn generate_create_funcs(r: String, ns_id: &str, s_ident: &str, create_fs: Vec<CreateField>) -> (res: String)
    ensures
        res@ == r@ + create_funcs_text(
            ns_id@,
            s_ident@,
            join(param_texts(create_fs@), ", "@),
            join(ident_texts(create_fs@), ",\n            "@),
        ),
{
    let (param_create_fs, ident_create_fs) = generate_fields(&create_fs);
    let mut ps: Vec<String> = Vec::new();
    let mut ids: Vec<String> = Vec::new();
    let n: usize = create_fs.len();
    let mut i: usize = 0;
    while i < n
        invariant
            n == create_fs@.len(),
            n == param_create_fs@.len(),
            n == ident_create_fs@.len(),
            i <= n,
            forall|j: int| 0 <= j < n ==> (#[trigger] param_create_fs@[j]).text() == param_text(create_fs@[j]),
            forall|j: int| 0 <= j < n ==> (#[trigger] ident_create_fs@[j]).ident@ == create_fs@[j].ident@,
            texts(ps@) =~= param_texts(create_fs@).take(i as int),
            texts(ids@) =~= ident_texts(create_fs@).take(i as int),
        decreases n - i,
    {
        let ghost p0 = ps@;
        let ghost d0 = ids@;
        ps.push(param_create_fs[i].to_tokens());
        ids.push(ident_create_fs[i].to_tokens());
        assert(texts(ps@) =~= texts(p0).push(param_texts(create_fs@)[i as int]));
        assert(param_texts(create_fs@).take(i + 1) =~= param_texts(create_fs@).take(i as int).push(param_texts(create_fs@)[i as int]));
        assert(texts(ids@) =~= texts(d0).push(ident_texts(create_fs@)[i as int]));
        assert(ident_texts(create_fs@).take(i + 1) =~= ident_texts(create_fs@).take(i as int).push(ident_texts(create_fs@)[i as int]));
        i = i + 1;
    }
    assert(param_texts(create_fs@).take(n as int) =~= param_texts(create_fs@));
    assert(ident_texts(create_fs@).take(n as int) =~= ident_texts(create_fs@));
    let params = join_all(&ps, ", ");
    let idents = join_all(&ids, ",\n            ");
    let mut out = String::from_str("\nimpl ");
    out.append(s_ident);
    out.append(" {\n    pub fn create(x: ");
    out.append(ns_id);
    out.append(", c: &PgConnection) -> ");
    out.append(s_ident);
    out.append(" {\n        diesel::insert_into(table)\n            .values(&x)\n            .get_result(c)\n            .expect(\"Error saving new track\")\n    }\n");
    out.append("\n    pub fn create_multiple(x: Vec<");
    out.append(ns_id);
    out.append(">, c: &PgConnection) -> Vec<");
    out.append(s_ident);
    out.append("> {\n        diesel::insert_into(table)\n            .values(&x)\n            .get_results(c)\n            .expect(\"Error saving new tracks\")\n    }\n");
    out.append("\n    pub fn create_from(");
    out.append(params.as_str());
    out.append(", c: &PgConnection) -> Vec<");
    out.append(s_ident);
    out.append("> {\n        let new_s = ");
    out.append(ns_id);
    out.append(" {\n            ");
    out.append(idents.as_str());
    out.append("\n        };\n        diesel::insert_into(table)\n            .values(&new_s)\n            .get_results(c)\n            .expect(\"Error saving new tracks\")\n    }\n}\n");
    let mut res = r;
    res.append(out.as_str());
    res
}

} // verus!
