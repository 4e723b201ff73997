//! The insertable `New<Struct>` struct and its conversions from the full struct.
use vstd::prelude::*;
use crate::commons::{
    create_elem_text, field_decl_text, first_non_path, join, join_all, IdentParsedField,
    lemma_first_non_path_prefix, lemma_marked_fields_append, marked_fields, ref_type_text,
    render_path, render_renamed_segment, renamed_segment_texts, texts, CrudError, CrudErrorView, fails_with, ParsedField,
    TypeModel, TypePathModel,
};

verus! {

/// A reference type `&'lt elem` whose lifetime may be left out.
pub struct TypeRefModel {
    pub lifetime: Option<String>,
    pub elem: String,
}

/// A field of the insertable struct: the annotated field's name and visibility,
/// typed as a reference to the field's own type.
pub struct CreateField {
    pub ident: String,
    pub ty: TypeRefModel,
    pub vis: String,
}

/// The view of an optional lifetime.
pub open spec fn lifetime_view(l: Option<String>) -> Option<Seq<char>> {
    match l {
        Some(s) => Some(s@),
        None => None,
    }
}

/// The text of a reference type.
pub open spec fn type_ref_text(t: TypeRefModel) -> Seq<char> {
    ref_type_text(lifetime_view(t.lifetime), t.elem@)
}

/// The declaration of a create field, `vis ident: &'lt ty`.
pub open spec fn create_field_text(c: CreateField) -> Seq<char> {
    field_decl_text(c.vis@, c.ident@, type_ref_text(c.ty))
}

/// `c` is the create field made from `f` with the lifetime `lt`.
pub open spec fn create_field_of(c: CreateField, f: ParsedField, lt: Seq<char>) -> bool {
    &&& c.ident == f.ident
    &&& c.vis == f.vis
    &&& lifetime_view(c.ty.lifetime) == Some(lt)
    &&& f.ty matches TypeModel::Path(t) && c.ty.elem@ == create_elem_text(t)
}

/// What building the create fields gives: the first marked field that is not
/// a path is refused, no marked field at all is refused, otherwise the marked fields.
pub open spec fn selected_fields(fs: Seq<ParsedField>, for_patch: bool) -> Result<Seq<ParsedField>, CrudErrorView> {
    let m = marked_fields(fs, for_patch);
    match first_non_path(m) {
        Some(id) => Err(CrudErrorView::UnsupportedFieldType(id)),
        None => if m.len() == 0 {
            Err(if for_patch { CrudErrorView::NoPatchableField } else { CrudErrorView::NoCreatableField })
        } else {
            Ok(m)
        },
    }
}

/// The create fields correspond one to one, in order, to `fs`.
pub open spec fn create_fields_of(cs: Seq<CreateField>, fs: Seq<ParsedField>, lt: Seq<char>) -> bool {
    &&& cs.len() == fs.len()
    &&& forall|i: int| 0 <= i < cs.len() ==> create_field_of(#[trigger] cs[i], fs[i], lt)
}

impl CreateField {
    /// The field's declaration, as text.
    pub fn to_tokens(&self) -> (res: String)
        ensures
            res@ == create_field_text(*self),
    {
        let mut out = self.vis.clone();
        out.append(" ");
        out.append(self.ident.as_str());
        out.append(": ");
        out.append("&");
        match &self.ty.lifetime {
            Some(l) => {
                out.append(l.as_str());
                out.append(" ");
            },
            None => {},
        }
        out.append(self.ty.elem.as_str());
        out
    }
}

/// Writes a path type with `String` renamed to `str` in every segment.
pub fn render_create_elem(t: &TypePathModel) -> (res: String)
    ensures
        res@ == create_elem_text(*t),
{
    let mut segs: Vec<String> = Vec::new();
    let n: usize = t.segments.len();
    let mut i: usize = 0;
    while i < n
        invariant
            n == t.segments@.len(),
            i <= n,
            texts(segs@) =~= renamed_segment_texts(*t).take(i as int),
        decreases n - i,
    {
        let ghost s0 = segs@;
        let s = render_renamed_segment(&t.segments[i]);
        segs.push(s);
        assert(texts(segs@) =~= texts(s0).push(renamed_segment_texts(*t)[i as int]));
        assert(renamed_segment_texts(*t).take(i + 1) =~= renamed_segment_texts(*t).take(i as int).push(renamed_segment_texts(*t)[i as int]));
        i = i + 1;
    }
    assert(renamed_segment_texts(*t).take(n as int) =~= renamed_segment_texts(*t));
    render_path(&t.qself, t.leading_colon, &segs)
}

/// Makes the create field for `x`: the same name and visibility, the type
/// `&'lt T` with `String` renamed to `str`; a type that is not a path is refused.
fn build_create_field(x: &ParsedField, l: &str) -> (res: Result<CreateField, CrudError>)
    ensures
        match x.ty {
            TypeModel::Path(_) => res matches Ok(c) && create_field_of(c, *x, l@),
            TypeModel::Other => fails_with(res, CrudErrorView::UnsupportedFieldType(x.ident@)),
        },
{
    match &x.ty {
        TypeModel::Path(t) => {
            let elem = render_create_elem(t);
            Ok(CreateField {
                ident: x.ident.clone(),
                ty: TypeRefModel { lifetime: Some(String::from_str(l)), elem },
                vis: x.vis.clone(),
            })
        },
        TypeModel::Other => Err(CrudError::UnsupportedFieldType(x.ident.clone())),
    }
}

/// Makes the create fields of all fields marked `creatable`, in order.
fn build_create_fields(fields: &Vec<ParsedField>, l: &str) -> (res: Result<Vec<CreateField>, CrudError>)
    ensures
        match selected_fields(fields@, false) {
            Ok(m) => res matches Ok(cs) && create_fields_of(cs@, m, l@),
            Err(e) => fails_with(res, e),
        },
{
    let mut r: Vec<CreateField> = Vec::new();
    let n: usize = fields.len();
    let mut i: usize = 0;
    while i < n
        invariant
            n == fields@.len(),
            i <= n,
            first_non_path(marked_fields(fields@.take(i as int), false)) is None,
            create_fields_of(r@, marked_fields(fields@.take(i as int), false), l@),
        decreases n - i,
    {
        let x = &fields[i];
        assert(fields@.take(i + 1).drop_last() =~= fields@.take(i as int));
        assert(fields@.take(i + 1).last() == fields@[i as int]);
        proof {
            lemma_marked_fields_append(fields@.take(i + 1), fields@.skip(i + 1), false);
            assert(fields@.take(i + 1) + fields@.skip(i + 1) =~= fields@);
        }
        let ghost prev = marked_fields(fields@.take(i as int), false);
        if x.creatable {
            assert(marked_fields(fields@.take(i + 1), false) == prev.push(*x));
            assert(prev.push(*x).drop_last() =~= prev);
            let ghost r0 = r@;
            match build_create_field(x, l) {
                Ok(c) => {
                    r.push(c);
                    assert(first_non_path(prev.push(*x)) is None);
                    assert forall|j: int| 0 <= j < r@.len() implies create_field_of(#[trigger] r@[j], prev.push(*x)[j], l@) by {
                        if j < prev.len() {
                            assert(r@[j] == r0[j]);
                        }
                    }
                },
                Err(e) => {
                    assert(first_non_path(prev.push(*x)) == Some(x.ident@));
                    proof {
                        lemma_first_non_path_prefix(
                            marked_fields(fields@.take(i + 1), false),
                            marked_fields(fields@.skip(i + 1), false),
                        );
                    }
                    return Err(e);
                },
            }
        }
        i = i + 1;
    }
    assert(fields@.take(n as int) =~= fields@);
    if r.len() > 0 {
        Ok(r)
    } else {
        Err(CrudError::NoCreatableField)
    }
}

/// The declarations of the create fields.
pub open spec fn create_field_texts(cs: Seq<CreateField>) -> Seq<Seq<char>> {
    cs.map_values(|c: CreateField| create_field_text(c))
}

/// The initialisers `ident: x.ident.as_ref()` of the create fields.
pub open spec fn create_init_texts(cs: Seq<CreateField>) -> Seq<Seq<char>> {
    cs.map_values(|c: CreateField| c.ident@ + ": x."@ + c.ident@ + ".as_ref()"@)
}

/// The insertable struct declaration.
pub open spec fn create_struct_text(table_name_quote: Seq<char>, ns: Seq<char>, lt: Seq<char>, decls: Seq<char>) -> Seq<char> {
    "\n#[derive(Debug, Insertable, Deserialize)]\n"@ + table_name_quote + "\npub struct "@ + ns + "<"@ + lt
        + "> {\n"@ + decls + "\n}\n"@
}

/// The `From` and `FromMultiple` impls from the full struct to the insertable one.
pub open spec fn create_from_text(s: Seq<char>, ns: Seq<char>, inits: Seq<char>) -> Seq<char> {
    "\nimpl<'a> From<&'a "@ + s + "> for "@ + ns + "<'a> {\n    fn from(x: &'a "@ + s
        + ") -> Self {\n        Self { "@ + inits + " }\n    }\n}\n"@ + "\nimpl<'a> FromMultiple<&'a Vec<"@ + s
        + ">> for "@ + ns + "<'a> {\n    fn from_multiple(y: &'a Vec<"@ + s
        + ">) -> Vec<Self> {\n        let mut r: Vec<Self> = vec![];\n        for x in y.iter() {\n            let z: Self = Self { "@
        + inits + " };\n            r.push(z)\n        }\n        r\n    }\n}\n"@
}

/// The declarations of `cs` joined by commas.
fn render_create_decls(cs: &Vec<CreateField>) -> (res: String)
    ensures
        res@ == join(create_field_texts(cs@), ",\n"@),
{
    let mut decls: Vec<String> = Vec::new();
    let n: usize = cs.len();
    let mut i: usize = 0;
    while i < n
        invariant
            n == cs@.len(),
            i <= n,
            texts(decls@) =~= create_field_texts(cs@).take(i as int),
        decreases n - i,
    {
        let ghost d0 = decls@;
        decls.push(cs[i].to_tokens());
        assert(texts(decls@) =~= texts(d0).push(create_field_texts(cs@)[i as int]));
        assert(create_field_texts(cs@).take(i + 1) =~= create_field_texts(cs@).take(i as int).push(create_field_texts(cs@)[i as int]));
        i = i + 1;
    }
    assert(create_field_texts(cs@).take(n as int) =~= create_field_texts(cs@));
    join_all(&decls, ",\n")
}

/// The initialisers of `cs` joined by commas.
fn render_create_inits(cs: &Vec<CreateField>) -> (res: String)
    ensures
        res@ == join(create_init_texts(cs@), ", "@),
{
    let mut inits: Vec<String> = Vec::new();
    let n: usize = cs.len();
    let mut i: usize = 0;
    while i < n
        invariant
            n == cs@.len(),
            i <= n,
            texts(inits@) =~= create_init_texts(cs@).take(i as int),
        decreases n - i,
    {
        let ghost i0 = inits@;
        let id = IdentParsedField { ident: cs[i].ident.clone() };
        let mut init = id.to_tokens();
        init.append(": x.");
        init.append(id.to_tokens().as_str());
        init.append(".as_ref()");
        inits.push(init);
        assert(texts(inits@) =~= texts(i0).push(create_init_texts(cs@)[i as int]));
        assert(create_init_texts(cs@).take(i + 1) =~= create_init_texts(cs@).take(i as int).push(create_init_texts(cs@)[i as int]));
        i = i + 1;
    }
    assert(create_init_texts(cs@).take(n as int) =~= create_init_texts(cs@));
    join_all(&inits, ", ")
}

/// Writes `create_struct_text`.
fn render_create_struct(table_name_quote: &str, ns_id: &str, main_lifetime: &str, decls: &str) -> (res: String)
    ensures
        res@ == create_struct_text(table_name_quote@, ns_id@, main_lifetime@, decls@),
{
    let mut out = String::from_str("\n#[derive(Debug, Insertable, Deserialize)]\n");
    out.append(table_name_quote);
    out.append("\npub struct ");
    out.append(ns_id);
    out.append("<");
    out.append(main_lifetime);
    out.append("> {\n");
    out.append(decls);
    out.append("\n}\n");
    out
}

/// Writes `create_from_text`.
fn render_create_from(s_ident: &str, ns_id: &str, inits: &str) -> (res: String)
    ensures
        res@ == create_from_text(s_ident@, ns_id@, inits@),
{
    let mut out = String::from_str("\nimpl<'a> From<&'a ");
    out.append(s_ident);
    out.append("> for ");
    out.append(ns_id);
    out.append("<'a> {\n    fn from(x: &'a ");
    out.append(s_ident);
    out.append(") -> Self {\n        Self { ");
    out.append(inits);
    out.append(" }\n    }\n}\n");
    out.append("\nimpl<'a> FromMultiple<&'a Vec<");
    out.append(s_ident);
    out.append(">> for ");
    out.append(ns_id);
    out.append("<'a> {\n    fn from_multiple(y: &'a Vec<");
    out.append(s_ident);
    out.append(">) -> Vec<Self> {\n        let mut r: Vec<Self> = vec![];\n        for x in y.iter() {\n            let z: Self = Self { ");
    out.append(inits);
    out.append(" };\n            r.push(z)\n        }\n        r\n    }\n}\n");
    out
}

/// Generates the insertable struct `ns_id` with one reference field per field
/// marked `creatable`, and the conversions into it from `s_ident`.
pub fn generate_create_struct(
    data_struct: &Vec<ParsedField>,
    main_lifetime: &str,
    r: String,
    table_name_quote: &str,
    ns_id: &str,
    s_ident: &str,
) -> (res: Result<(String, Vec<CreateField>), CrudError>)
    ensures
        match selected_fields(data_struct@, false) {
            Ok(m) => res matches Ok((out, cs)) && create_fields_of(cs@, m, main_lifetime@) && out@ == r@
                + create_struct_text(table_name_quote@, ns_id@, main_lifetime@, join(create_field_texts(cs@), ",\n"@))
                + create_from_text(s_ident@, ns_id@, join(create_init_texts(cs@), ", "@)),
            Err(e) => fails_with(res, e),
        },
{
    let create_fs = match build_create_fields(data_struct, main_lifetime) {
        Ok(v) => v,
        Err(e) => return Err(e),
    };
    let decls = render_create_decls(&create_fs);
    let inits = render_create_inits(&create_fs);
    let decl_part = render_create_struct(table_name_quote, ns_id, main_lifetime, decls.as_str());
    let from_part = render_create_from(s_ident, ns_id, inits.as_str());
    let mut out = r;
    out.append(decl_part.as_str());
    out.append(from_part.as_str());
    Ok((out, create_fs))
}

} // verus!
