//! What the expansion says about the table, the routes and the `Generate`
//! impl, stated over the source text that `crud_source` gives, and how
//! attributes the generator does not know about are treated.
use vstd::prelude::*;
use crate::{
    config_fn_text, config_ident_of, create_part, crud_body, crud_source, data_fields, delete_part, faker_part,
    header_text, ops_has, parsed_field_of, patch_part, read_part, table_name_of,
};
use crate::attributes::{attr_step, attrs_read, AttrsRead};
use crate::commons::ParsedField;
use crate::create::struct_gen::{create_struct_text, selected_fields};
use crate::create::endpoint_gen::create_endpoint_text;
use crate::create::create_code;
use crate::delete::delete_code;
use crate::delete::endpoint_gen::delete_endpoint_text;
use crate::faker::faker_text;
use crate::helpers::lowercase_text;
use crate::attributes::{nested_paths, nested_strs};
use crate::input::{AttributeModel, DeriveInputModel, FieldModel, LitModel, MetaModel, NestedMetaModel};
use crate::lexical::str_literal_spelling;
use crate::patch::patch_code;
use crate::patch::endpoint_gen::patch_endpoint_text;
use crate::patch::struct_gen::patch_struct_text;
use crate::read::read_code;
use crate::read::endpoint_gen::read_endpoints_text;

verus! {

/// `p` occurs in `t` as a contiguous piece.
pub open spec fn occurs(p: Seq<char>, t: Seq<char>) -> bool {
    exists|i: int| 0 <= i && i + p.len() <= t.len() && #[trigger] t.subrange(i, i + p.len()) == p
}

/// The table a struct named `s` is stored in: the given name, or `s` in lower
/// case followed by `s`.
pub open spec fn chosen_table(given: Option<Seq<char>>, s: Seq<char>) -> Seq<char> {
    match given {
        Some(n) => n,
        None => lowercase_text(s) + "s"@,
    }
}

/// The attribute `#[table_name = "<table>"]`, the name spelled as a string literal.
pub open spec fn table_attribute(table: Seq<char>) -> Seq<char> {
    "#[table_name = "@ + str_literal_spelling(table) + "]"@
}

/// A piece occurs in any text that has it in the middle.
proof fn lemma_occurs_within(p: Seq<char>, x: Seq<char>, a: Seq<char>, b: Seq<char>)
    requires
        occurs(p, x),
    ensures
        occurs(p, a + x + b),
{
    let i = choose|i: int| 0 <= i && i + p.len() <= x.len() && #[trigger] x.subrange(i, i + p.len()) == p;
    let j = a.len() + i;
    assert((a + x + b).subrange(j, j + p.len()) =~= x.subrange(i, i + p.len()));
}

/// A piece occurs in itself.
proof fn lemma_occurs_self(p: Seq<char>)
    ensures
        occurs(p, p),
{
    let z: int = 0;
    assert(p.subrange(z, z + p.len()) =~= p);
}

/// A piece that occurs in `x` occurs in `x + b`.
proof fn lemma_occurs_after(p: Seq<char>, x: Seq<char>, b: Seq<char>)
    requires
        occurs(p, x),
    ensures
        occurs(p, x + b),
{
    lemma_occurs_within(p, x, Seq::empty(), b);
    assert(Seq::<char>::empty() + x + b =~= x + b);
}

/// A piece that occurs in `x` occurs in `a + x`.
proof fn lemma_occurs_before(p: Seq<char>, a: Seq<char>, x: Seq<char>)
    requires
        occurs(p, x),
    ensures
        occurs(p, a + x),
{
    lemma_occurs_within(p, x, a, Seq::empty());
    assert(a + x + Seq::<char>::empty() =~= a + x);
}

/// A piece occurs in `a + p + b`.
proof fn lemma_occurs_middle(a: Seq<char>, p: Seq<char>, b: Seq<char>)
    ensures
        occurs(p, a + p + b),
{
    lemma_occurs_self(p);
    lemma_occurs_within(p, p, a, b);
}

/// What the fields of a struct become before generation.
pub open spec fn parsed_fields(input: DeriveInputModel) -> Seq<ParsedField> {
    match data_fields(input.data) {
        Ok(fs) => fs.map_values(|f: FieldModel| parsed_field_of(f)),
        Err(_) => Seq::empty(),
    }
}

/// A successful expansion is the body for the struct's fields, the attributes
/// read, and the chosen table.
proof fn lemma_expansion_is_body(input: DeriveInputModel, st: AttrsRead, t: Seq<char>)
    requires
        attrs_read(input.attrs@) == Ok::<AttrsRead, crate::commons::CrudErrorView>(st),
        crud_source(input) == Ok::<Seq<char>, crate::commons::CrudErrorView>(t),
    ensures
        crud_body(parsed_fields(input), st, input.ident@, chosen_table(st.table_name, input.ident@))
            == Ok::<Seq<char>, crate::commons::CrudErrorView>(t),
{
}

/// A piece of one operation's code occurs in the whole expansion.
proof fn lemma_part_occurs(
    p: Seq<char>,
    pf: Seq<ParsedField>,
    st: AttrsRead,
    s: Seq<char>,
    table: Seq<char>,
    t: Seq<char>,
    which: int,
)
    requires
        crud_body(pf, st, s, table) == Ok::<Seq<char>, crate::commons::CrudErrorView>(t),
        which == 0 ==> (create_part(pf, st, s, table) matches Ok(c) && occurs(p, c.0)),
        which == 1 ==> occurs(p, read_part(st, s, table).0),
        which == 2 ==> (patch_part(pf, st, s, table) matches Ok(c) && occurs(p, c.0)),
        which == 3 ==> occurs(p, delete_part(st, s, table).0),
        which == 4 ==> occurs(p, faker_part(st, s)),
        which == 5 ==> forall|x: Seq<char>| occurs(p, #[trigger] config_fn_text(config_ident_of(table), x)),
        0 <= which <= 5,
    ensures
        occurs(p, t),
{
    match create_part(pf, st, s, table) {
        Ok(c) => match patch_part(pf, st, s, table) {
            Ok(pp) => {
                let rd = read_part(st, s, table);
                let d = delete_part(st, s, table);
                let f = faker_part(st, s);
                let cfg = config_fn_text(config_ident_of(table), "cfg"@ + c.1 + rd.1 + pp.1 + d.1);
                let h = header_text();
                assert(t == h + c.0 + rd.0 + pp.0 + d.0 + f + cfg);
                if which == 0 {
                    lemma_occurs_within(p, c.0, h, rd.0 + pp.0 + d.0 + f + cfg);
                    assert(t =~= h + c.0 + (rd.0 + pp.0 + d.0 + f + cfg));
                } else if which == 1 {
                    lemma_occurs_within(p, rd.0, h + c.0, pp.0 + d.0 + f + cfg);
                    assert(t =~= h + c.0 + rd.0 + (pp.0 + d.0 + f + cfg));
                } else if which == 2 {
                    lemma_occurs_within(p, pp.0, h + c.0 + rd.0, d.0 + f + cfg);
                    assert(t =~= h + c.0 + rd.0 + pp.0 + (d.0 + f + cfg));
                } else if which == 3 {
                    lemma_occurs_within(p, d.0, h + c.0 + rd.0 + pp.0, f + cfg);
                    assert(t =~= h + c.0 + rd.0 + pp.0 + d.0 + (f + cfg));
                } else if which == 4 {
                    lemma_occurs_within(p, f, h + c.0 + rd.0 + pp.0 + d.0, cfg);
                } else {
                    assert(occurs(p, cfg));
                    lemma_occurs_before(p, h + c.0 + rd.0 + pp.0 + d.0 + f, cfg);
                }
            },
            Err(_) => {},
        },
        Err(_) => {},
    }
}

/// The insertable struct's declaration starts with its table attribute and name.
proof fn lemma_create_code_parts(m: Seq<ParsedField>, q: Seq<char>, ns: Seq<char>, s: Seq<char>, ep: Seq<char>)
    ensures
        occurs(q + "\npub struct "@ + ns, create_code(m, "'a"@, q, ns, s, ep)),
        occurs("\n#[post("@ + str_literal_spelling(ep), create_code(m, "'a"@, q, ns, s, ep)),
{
    let lt = "'a"@;
    let decls = crate::commons::join(m.map_values(|f: ParsedField| crate::create::create_decl_of(f, lt)), ",\n"@);
    let d0 = "\n#[derive(Debug, Insertable, Deserialize)]\n"@;
    let x = "\npub struct "@;
    let p1 = q + x + ns;
    assert(d0 + q + x + ns =~= d0 + p1);
    lemma_occurs_self(p1);
    lemma_occurs_before(p1, d0, p1);
    let y = "<"@;
    let z = "> {\n"@;
    let w = "\n}\n"@;
    lemma_occurs_after(p1, d0 + q + x + ns, y);
    lemma_occurs_after(p1, d0 + q + x + ns + y, lt);
    lemma_occurs_after(p1, d0 + q + x + ns + y + lt, z);
    lemma_occurs_after(p1, d0 + q + x + ns + y + lt + z, decls);
    lemma_occurs_after(p1, d0 + q + x + ns + y + lt + z + decls, w);
    let cst = create_struct_text(q, ns, lt, decls);
    assert(cst == d0 + q + x + ns + y + lt + z + decls + w);
    let from = crate::create::struct_gen::create_from_text(
        s,
        ns,
        crate::commons::join(m.map_values(|f: ParsedField| crate::create::create_init_of(f)), ", "@),
    );
    let funcs = crate::create::func_gen::create_funcs_text(
        ns,
        s,
        crate::commons::join(m.map_values(|f: ParsedField| crate::create::create_param_of(f)), ", "@),
        crate::commons::join(m.map_values(|f: ParsedField| f.ident@), ",\n            "@),
    );
    let lit = str_literal_spelling(ep);
    let ce = create_endpoint_text(s, ns, lit);
    assert(create_code(m, lt, q, ns, s, ep) == cst + from + funcs + ce);
    lemma_occurs_after(p1, cst, from);
    lemma_occurs_after(p1, cst + from, funcs);
    lemma_occurs_after(p1, cst + from + funcs, ce);
    let p2 = "\n#[post("@ + lit;
    lemma_occurs_self(p2);
    let r = ")]\nasync fn create(req_body: String) -> impl Responder {\n    let req: "@;
    lemma_occurs_after(p2, p2, r);
    lemma_occurs_after(p2, p2 + r, ns);
    let r2 = " = serde_json::from_str(req_body.as_str()).unwrap();\n    let t = json!("@;
    lemma_occurs_after(p2, p2 + r + ns, r2);
    lemma_occurs_after(p2, p2 + r + ns + r2, s);
    let r3 = "::create(req, &establish_connection()));\n\n    HttpResponse::Ok()\n        .content_type(ContentType::json())\n        .body(t.to_string())\n}\n"@;
    lemma_occurs_after(p2, p2 + r + ns + r2 + s, r3);
    assert(ce == p2 + r + ns + r2 + s + r3);
    lemma_occurs_before(p2, cst + from + funcs, ce);
}

/// When `create` is requested, the insertable struct `New<Struct>` is tagged
/// with the struct's table (the `table_name` given, else the lower-case
/// default), and the `create` handler is routed at `POST /<table>`.
pub proof fn law_create_uses_the_chosen_table(input: DeriveInputModel, st: AttrsRead, t: Seq<char>)
    requires
        attrs_read(input.attrs@) == Ok::<AttrsRead, crate::commons::CrudErrorView>(st),
        ops_has(st.operations, "create"@),
        crud_source(input) == Ok::<Seq<char>, crate::commons::CrudErrorView>(t),
    ensures
        occurs(table_attribute(chosen_table(st.table_name, input.ident@)) + "\npub struct "@ + "New"@ + input.ident@, t),
        occurs("\n#[post("@ + str_literal_spelling("/"@ + chosen_table(st.table_name, input.ident@)), t),
{
    let s = input.ident@;
    let table = chosen_table(st.table_name, s);
    let pf = parsed_fields(input);
    lemma_expansion_is_body(input, st, t);
    let q = table_attribute(table);
    let ns = "New"@ + s;
    assert(q + "\npub struct "@ + "New"@ + s =~= q + "\npub struct "@ + ns);
    match selected_fields(pf, false) {
        Ok(m) => {
            lemma_create_code_parts(m, q, ns, s, "/"@ + table);
            lemma_part_occurs(q + "\npub struct "@ + ns, pf, st, s, table, t, 0);
            lemma_part_occurs("\n#[post("@ + str_literal_spelling("/"@ + table), pf, st, s, table, t, 0);
        },
        Err(_) => {},
    }
}

/// A text starts with `p`: `p` occurs in it.
proof fn lemma_occurs_prefix(p: Seq<char>, t: Seq<char>)
    requires
        p.len() <= t.len(),
        t.subrange(0, p.len() as int) == p,
    ensures
        occurs(p, t),
{
    let z: int = 0;
    assert(t.subrange(z, z + p.len()) == p);
}

/// The changeset struct's declaration starts with its table attribute and
/// name; its handler is routed at the given route.
proof fn lemma_patch_code_parts(m: Seq<ParsedField>, q: Seq<char>, ps: Seq<char>, s: Seq<char>, ewp: Seq<char>)
    ensures
        occurs(q + "\npub struct "@ + ps, patch_code(m, "'a"@, q, ps, s, ewp)),
        occurs("\n#[patch("@ + str_literal_spelling(ewp), patch_code(m, "'a"@, q, ps, s, ewp)),
{
    let lt = "'a"@;
    let decls = crate::commons::join(m.map_values(|f: ParsedField| crate::patch::struct_gen::patch_decl_of(f, lt)), ",\n"@);
    let d0 = "\n#[derive(Debug, AsChangeset, Deserialize)]\n"@;
    let p1 = q + "\npub struct "@ + ps;
    let pst = patch_struct_text(q, ps, lt, decls);
    let tail = "<"@ + lt + "> {\n"@ + decls + "\n}\n"@;
    assert(pst =~= d0 + p1 + tail);
    lemma_occurs_middle(d0, p1, tail);
    let pfn = crate::patch::func_gen::patch_func_text(ps, s);
    let lit = str_literal_spelling(ewp);
    let pe = patch_endpoint_text(s, ps, lit);
    assert(patch_code(m, lt, q, ps, s, ewp) == pst + pfn + pe);
    lemma_occurs_after(p1, pst, pfn);
    lemma_occurs_after(p1, pst + pfn, pe);
    let p2 = "\n#[patch("@ + lit;
    assert(pe.subrange(0, p2.len() as int) =~= p2);
    lemma_occurs_prefix(p2, pe);
    lemma_occurs_before(p2, pst + pfn, pe);
}

/// When `patch` is requested, the changeset struct `Patch<Struct>` is tagged
/// with the struct's table and the `patch` handler is routed at the record
/// route of that table, `PATCH /<table>/{id}`.
pub proof fn law_patch_uses_the_chosen_table(input: DeriveInputModel, st: AttrsRead, t: Seq<char>)
    requires
        attrs_read(input.attrs@) == Ok::<AttrsRead, crate::commons::CrudErrorView>(st),
        ops_has(st.operations, "patch"@),
        crud_source(input) == Ok::<Seq<char>, crate::commons::CrudErrorView>(t),
    ensures
        occurs(table_attribute(chosen_table(st.table_name, input.ident@)) + "\npub struct "@ + "Patch"@ + input.ident@, t),
        occurs("\n#[patch("@ + str_literal_spelling("/"@ + chosen_table(st.table_name, input.ident@) + "/{id}"@), t),
{
    let s = input.ident@;
    let table = chosen_table(st.table_name, s);
    let pf = parsed_fields(input);
    lemma_expansion_is_body(input, st, t);
    let q = table_attribute(table);
    let ps = "Patch"@ + s;
    assert(q + "\npub struct "@ + "Patch"@ + s =~= q + "\npub struct "@ + ps);
    match selected_fields(pf, true) {
        Ok(m) => {
            lemma_patch_code_parts(m, q, ps, s, "/"@ + table + "/{id}"@);
            lemma_part_occurs(q + "\npub struct "@ + ps, pf, st, s, table, t, 2);
            lemma_part_occurs("\n#[patch("@ + str_literal_spelling("/"@ + table + "/{id}"@), pf, st, s, table, t, 2);
        },
        Err(_) => {},
    }
}

/// When `delete` is requested, its handler is routed at the record route of
/// the struct's table, `DELETE /<table>/{id}`.
pub proof fn law_delete_uses_the_chosen_table(input: DeriveInputModel, st: AttrsRead, t: Seq<char>)
    requires
        attrs_read(input.attrs@) == Ok::<AttrsRead, crate::commons::CrudErrorView>(st),
        ops_has(st.operations, "delete"@),
        crud_source(input) == Ok::<Seq<char>, crate::commons::CrudErrorView>(t),
    ensures
        occurs("\n#[delete("@ + str_literal_spelling("/"@ + chosen_table(st.table_name, input.ident@) + "/{id}"@), t),
{
    let s = input.ident@;
    let table = chosen_table(st.table_name, s);
    let pf = parsed_fields(input);
    lemma_expansion_is_body(input, st, t);
    let lit = str_literal_spelling("/"@ + table + "/{id}"@);
    let p = "\n#[delete("@ + lit;
    let de = delete_endpoint_text(s, lit);
    assert(de.subrange(0, p.len() as int) =~= p);
    lemma_occurs_prefix(p, de);
    let df = crate::delete::func_gen::delete_func_text(s);
    assert(delete_code(s, "/"@ + table + "/{id}"@) == df + de);
    lemma_occurs_before(p, df, de);
    lemma_part_occurs(p, pf, st, s, table, t, 3);
}

/// When `read` is requested, its handlers are routed at the record route
/// `GET /<table>/{id}` and the collection route `GET /<table>` of the
/// struct's table.
pub proof fn law_read_uses_the_chosen_table(input: DeriveInputModel, st: AttrsRead, t: Seq<char>)
    requires
        attrs_read(input.attrs@) == Ok::<AttrsRead, crate::commons::CrudErrorView>(st),
        ops_has(st.operations, "read"@),
        crud_source(input) == Ok::<Seq<char>, crate::commons::CrudErrorView>(t),
    ensures
        occurs("\n#[get("@ + str_literal_spelling("/"@ + chosen_table(st.table_name, input.ident@) + "/{id}"@), t),
        occurs("\n#[get("@ + str_literal_spelling("/"@ + chosen_table(st.table_name, input.ident@)), t),
{
    let s = input.ident@;
    let table = chosen_table(st.table_name, s);
    let pf = parsed_fields(input);
    lemma_expansion_is_body(input, st, t);
    let ewp = str_literal_spelling("/"@ + table + "/{id}"@);
    let ep = str_literal_spelling("/"@ + table);
    let re = read_endpoints_text(s, ep, ewp);
    let rf = crate::read::func_gen::read_funcs_text(s);
    assert(read_code(s, "/"@ + table, "/"@ + table + "/{id}"@) == rf + re);
    let p1 = "\n#[get("@ + ewp;
    assert(re.subrange(0, p1.len() as int) =~= p1);
    lemma_occurs_prefix(p1, re);
    lemma_occurs_before(p1, rf, re);
    lemma_part_occurs(p1, pf, st, s, table, t, 1);
    let p2 = "\n#[get("@ + ep;
    let first = "\n#[get("@ + ewp
        + ")]\nasync fn read(path: web::Path<i32>) -> impl Responder {\n    let id = path.into_inner();\n    let r = json!("@
        + s
        + "::read(id, &establish_connection()));\n\n    HttpResponse::Ok()\n        .content_type(ContentType::json())\n        .body(r.to_string())\n}\n"@;
    let after = re.subrange((first.len() + p2.len()) as int, re.len() as int);
    assert(re =~= first + p2 + after);
    lemma_occurs_middle(first, p2, after);
    lemma_occurs_before(p2, rf, re);
    lemma_part_occurs(p2, pf, st, s, table, t, 1);
}

/// When the struct derives `Dummy` (in any position of its `derive` list),
/// the expansion holds `impl Generate for <Struct>`.
pub proof fn law_dummy_derive_brings_generate(input: DeriveInputModel, st: AttrsRead, t: Seq<char>)
    requires
        attrs_read(input.attrs@) == Ok::<AttrsRead, crate::commons::CrudErrorView>(st),
        st.derived.contains("Dummy"@),
        crud_source(input) == Ok::<Seq<char>, crate::commons::CrudErrorView>(t),
    ensures
        occurs("\nimpl Generate for "@ + input.ident@, t),
{
    let s = input.ident@;
    let table = chosen_table(st.table_name, s);
    let pf = parsed_fields(input);
    lemma_expansion_is_body(input, st, t);
    let p = "\nimpl Generate for "@ + s;
    let ft = faker_text(s);
    assert(ft.subrange(0, p.len() as int) =~= p);
    lemma_occurs_prefix(p, ft);
    lemma_part_occurs(p, pf, st, s, table, t, 4);
}

/// An attribute the generator does not read: any name but `derive`,
/// `operations` and `table_name`, with a meta item that parses.
pub open spec fn unread_attribute(a: AttributeModel) -> bool {
    &&& a.name@ != "derive"@
    &&& a.name@ != "operations"@
    &&& a.name@ != "table_name"@
    &&& !(a.meta is Unparsable)
}

/// Reading an attribute that the generator does not use (such as
/// `#[serde(rename_all = "camelCase")]`) changes nothing and never fails,
/// whatever its items are.
pub proof fn law_unread_attribute_changes_nothing(st: AttrsRead, a: AttributeModel)
    requires
        unread_attribute(a),
    ensures
        attr_step(st, a) == Ok::<AttrsRead, crate::commons::CrudErrorView>(st),
{
}

/// Inserting an unread attribute at `k` leaves the reading of every prefix
/// that reaches past it as it was.
proof fn lemma_insert_unread(a1: Seq<AttributeModel>, a2: Seq<AttributeModel>, a: AttributeModel, k: int, n: int)
    requires
        0 <= k <= a1.len(),
        a2 == a1.insert(k, a),
        unread_attribute(a),
        k <= n <= a1.len(),
    ensures
        attrs_read(a2.take(n + 1)) == attrs_read(a1.take(n)),
    decreases n,
{
    assert(a2.take(n + 1).drop_last() =~= a2.take(n));
    if n == k {
        assert(a2.take(n) =~= a1.take(n));
        assert(a2.take(n + 1).last() == a);
        law_unread_attribute_changes_nothing(
            match attrs_read(a1.take(n)) {
                Ok(st) => st,
                Err(_) => AttrsRead { derived: seq![], operations: None, table_name: None },
            },
            a,
        );
    } else {
        assert(a1.take(n).drop_last() =~= a1.take(n - 1));
        lemma_insert_unread(a1, a2, a, k, n - 1);
        assert(a2.take(n + 1).last() == a1.take(n).last());
    }
}

/// An attribute the generator does not read can be added anywhere among the
/// struct's attributes without changing the expansion or its errors.
pub proof fn law_unread_attribute_is_ignored(i1: DeriveInputModel, i2: DeriveInputModel, a: AttributeModel, k: int)
    requires
        i1.ident == i2.ident,
        i1.data == i2.data,
        0 <= k <= i1.attrs@.len(),
        i2.attrs@ == i1.attrs@.insert(k, a),
        unread_attribute(a),
    ensures
        crud_source(i2) == crud_source(i1),
{
    let a1 = i1.attrs@;
    let a2 = i2.attrs@;
    lemma_insert_unread(a1, a2, a, k, a1.len() as int);
    assert(a2.take(a1.len() as int + 1) =~= a2);
    assert(a1.take(a1.len() as int) =~= a1);
}

/// The endpoints are registered by a function named after the struct's
/// table, `<table>_endpoints_config`.
pub proof fn law_config_function_is_named_after_the_table(input: DeriveInputModel, st: AttrsRead, t: Seq<char>)
    requires
        attrs_read(input.attrs@) == Ok::<AttrsRead, crate::commons::CrudErrorView>(st),
        crud_source(input) == Ok::<Seq<char>, crate::commons::CrudErrorView>(t),
    ensures
        occurs("\npub fn "@ + (chosen_table(st.table_name, input.ident@) + "_endpoints_config"@), t),
{
    let s = input.ident@;
    let table = chosen_table(st.table_name, s);
    let pf = parsed_fields(input);
    lemma_expansion_is_body(input, st, t);
    let p = "\npub fn "@ + (table + "_endpoints_config"@);
    assert forall|x: Seq<char>| occurs(p, #[trigger] config_fn_text(config_ident_of(table), x)) by {
        let r1 = "(cfg: &mut web::ServiceConfig) {\n    "@;
        let r2 = ";\n}\n"@;
        lemma_occurs_self(p);
        lemma_occurs_after(p, p, r1);
        lemma_occurs_after(p, p + r1, x);
        lemma_occurs_after(p, p + r1 + x, r2);
    }
    lemma_part_occurs(p, pf, st, s, table, t, 5);
}

/// `t1` is `t2` with `m` inserted somewhere.
pub open spec fn with_inserted(t1: Seq<char>, t2: Seq<char>, m: Seq<char>) -> bool {
    exists|i: int| 0 <= i <= t2.len() && t1 == #[trigger] t2.subrange(0, i) + m + t2.subrange(i, t2.len() as int)
}

/// Deriving `Dummy` or not changes the expansion by exactly the `Generate`
/// impl: with the same operations and table, the expansion with `Dummy` among
/// the derived traits is the one without it plus `faker_text(s)`.
pub proof fn law_dummy_adds_exactly_the_generate_impl(
    pf: Seq<ParsedField>,
    st1: AttrsRead,
    st2: AttrsRead,
    s: Seq<char>,
    table: Seq<char>,
)
    requires
        st1.operations == st2.operations,
        st1.table_name == st2.table_name,
        st1.derived.contains("Dummy"@),
        !st2.derived.contains("Dummy"@),
    ensures
        match (crud_body(pf, st1, s, table), crud_body(pf, st2, s, table)) {
            (Ok(t1), Ok(t2)) => with_inserted(t1, t2, faker_text(s)),
            (Err(e1), Err(e2)) => e1 == e2,
            _ => false,
        },
{
    match create_part(pf, st1, s, table) {
        Ok(c) => match patch_part(pf, st1, s, table) {
            Ok(pp) => {
                let rd = read_part(st1, s, table);
                let d = delete_part(st1, s, table);
                let cfg = config_fn_text(config_ident_of(table), "cfg"@ + c.1 + rd.1 + pp.1 + d.1);
                let a = header_text() + c.0 + rd.0 + pp.0 + d.0;
                let t2 = a + cfg;
                assert(crud_body(pf, st2, s, table) == Ok::<Seq<char>, crate::commons::CrudErrorView>(t2));
                let i = a.len() as int;
                assert(t2.subrange(0, i) =~= a);
                assert(t2.subrange(i, t2.len() as int) =~= cfg);
            },
            Err(_) => {},
        },
        Err(_) => {},
    }
}

/// The nested items are all paths.
pub open spec fn all_paths(ns: Seq<NestedMetaModel>) -> bool {
    forall|i: int| 0 <= i < ns.len() ==> #[trigger] ns[i] is Path
}

/// The nested items are all string literals.
pub open spec fn all_strs(ns: Seq<NestedMetaModel>) -> bool {
    forall|i: int| 0 <= i < ns.len() ==> #[trigger] ns[i] is Str
}

proof fn lemma_nested_paths_all(ns: Seq<NestedMetaModel>)
    requires
        all_paths(ns),
    ensures
        nested_paths(ns) matches Some(v) && v.len() == ns.len() && forall|i: int|
            0 <= i < ns.len() ==> (#[trigger] ns[i] matches NestedMetaModel::Path(p) && v[i] == p@),
    decreases ns.len(),
{
    if ns.len() > 0 {
        let d = ns.drop_last();
        assert(all_paths(d)) by {
            assert forall|i: int| 0 <= i < d.len() implies #[trigger] d[i] is Path by {
                assert(d[i] == ns[i]);
            }
        }
        lemma_nested_paths_all(d);
        assert(ns[ns.len() - 1] is Path);
        match (nested_paths(d), ns.last()) {
            (Some(v0), NestedMetaModel::Path(p)) => {
                let v = v0.push(p@);
                assert forall|i: int| 0 <= i < ns.len() implies (#[trigger] ns[i] matches NestedMetaModel::Path(q) && v[i] == q@) by {
                    if i < ns.len() - 1 {
                        assert(d[i] == ns[i]);
                    }
                }
            },
            _ => {},
        }
    }
}

proof fn lemma_nested_strs_all(ns: Seq<NestedMetaModel>)
    requires
        all_strs(ns),
    ensures
        nested_strs(ns) matches Some(v) && v.len() == ns.len() && forall|i: int|
            0 <= i < ns.len() ==> (#[trigger] ns[i] matches NestedMetaModel::Str(p) && v[i] == p@),
    decreases ns.len(),
{
    if ns.len() > 0 {
        let d = ns.drop_last();
        assert(all_strs(d)) by {
            assert forall|i: int| 0 <= i < d.len() implies #[trigger] d[i] is Str by {
                assert(d[i] == ns[i]);
            }
        }
        lemma_nested_strs_all(d);
        assert(ns[ns.len() - 1] is Str);
        match (nested_strs(d), ns.last()) {
            (Some(v0), NestedMetaModel::Str(p)) => {
                let v = v0.push(p@);
                assert forall|i: int| 0 <= i < ns.len() implies (#[trigger] ns[i] matches NestedMetaModel::Str(q) && v[i] == q@) by {
                    if i < ns.len() - 1 {
                        assert(d[i] == ns[i]);
                    }
                }
            },
            _ => {},
        }
    }
}

/// `#[derive(A, B, ..)]` sets the derived traits to the last identifiers of
/// its paths, in order, and leaves the operations and the table as they were.
pub proof fn law_derive_attribute_lists_the_traits(st: AttrsRead, a: AttributeModel)
    requires
        a.name@ == "derive"@,
        a.meta matches MetaModel::List(ns) && all_paths(ns@),
    ensures
        attr_step(st, a) matches Ok(st2) && st2.operations == st.operations && st2.table_name == st.table_name
            && (a.meta matches MetaModel::List(ns) && st2.derived.len() == ns@.len() && forall|i: int|
            0 <= i < ns@.len() ==> (#[trigger] ns@[i] matches NestedMetaModel::Path(p) && st2.derived[i] == p@)),
{
    match a.meta {
        MetaModel::List(ns) => lemma_nested_paths_all(ns@),
        _ => {},
    }
}

/// `#[operations("a", "b", ..)]` sets the requested operations to the values
/// of its string literals, in order, and leaves the rest as it was.
pub proof fn law_operations_attribute_lists_the_operations(st: AttrsRead, a: AttributeModel)
    requires
        a.name@ == "operations"@,
        a.meta matches MetaModel::List(ns) && all_strs(ns@),
    ensures
        attr_step(st, a) matches Ok(st2) && st2.derived == st.derived && st2.table_name == st.table_name
            && (st2.operations matches Some(ops) && (a.meta matches MetaModel::List(ns) && ops.len() == ns@.len()
            && forall|i: int| 0 <= i < ns@.len() ==> (#[trigger] ns@[i] matches NestedMetaModel::Str(p) && ops[i] == p@))),
{
    reveal_strlit("operations");
    reveal_strlit("derive");
    assert("operations"@ != "derive"@) by {
        assert("operations"@.len() != "derive"@.len());
    }
    match a.meta {
        MetaModel::List(ns) => lemma_nested_strs_all(ns@),
        _ => {},
    }
}

/// `#[table_name = "t"]` sets the table to `t` and leaves the rest as it was.
pub proof fn law_table_name_attribute_sets_the_table(st: AttrsRead, a: AttributeModel)
    requires
        a.name@ == "table_name"@,
        a.meta matches MetaModel::NameValue(LitModel::Str(v)),
    ensures
        attr_step(st, a) matches Ok(st2) && st2.derived == st.derived && st2.operations == st.operations
            && (a.meta matches MetaModel::NameValue(LitModel::Str(v)) && st2.table_name == Some(v@)),
{
    reveal_strlit("table_name");
    reveal_strlit("derive");
    reveal_strlit("operations");
    assert("table_name"@ != "derive"@) by {
        assert("table_name"@.len() != "derive"@.len());
    }
    assert("table_name"@ != "operations"@) by {
        assert("table_name"@[0] != "operations"@[0]);
    }
}

} // verus!
