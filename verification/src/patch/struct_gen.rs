//! The `Patch<Struct>` changeset struct, whose fields are all optional.
use vstd::prelude::*;
use crate::commons::{
    field_decl_text, first_non_path, join, join_all, lemma_first_non_path_prefix,
    lemma_marked_fields_append, marked_fields, patch_segment_texts, patch_type_text, render_path,
    render_renamed_segment, texts, CrudError, CrudErrorView, fails_with, ParsedField, TypeModel,
    TypePathModel,
};
use crate::create::struct_gen::selected_fields;

verus! {

/// A field of the changeset struct: the annotated field's name and visibility
/// and the text of its optional type.
pub struct PatchField {
    pub ident: String,
    pub ty: String,
    pub vis: String,
}

/// The declaration of `f` in the changeset struct: `vis ident: T'` where every
/// segment of the path `T` became `Option<&'lt segment>`.
pub open spec fn patch_decl_of(f: ParsedField, lt: Seq<char>) -> Seq<char> {
    match f.ty {
        TypeModel::Path(t) => field_decl_text(f.vis@, f.ident@, patch_type_text(t, lt)),
        TypeModel::Other => Seq::<char>::empty(),
    }
}

/// `p` is the patch field made from `f` with the lifetime `lt`.
pub open spec fn patch_field_of(p: PatchField, f: ParsedField, lt: Seq<char>) -> bool {
    &&& p.ident == f.ident
    &&& p.vis == f.vis
    &&& f.ty matches TypeModel::Path(t) && p.ty@ == patch_type_text(t, lt)
}

/// The patch fields correspond one to one, in order, to `fs`.
pub open spec fn patch_fields_of(ps: Seq<PatchField>, fs: Seq<ParsedField>, lt: Seq<char>) -> bool {
    &&& ps.len() == fs.len()
    &&& forall|i: int| 0 <= i < ps.len() ==> patch_field_of(#[trigger] ps[i], fs[i], lt)
}

impl PatchField {
    /// The field's declaration, as text.
    pub fn to_tokens(&self) -> (res: String)
        ensures
            res@ == field_decl_text(self.vis@, self.ident@, self.ty@),
    {
        let mut out = self.vis.clone();
        out.append(" ");
        out.append(self.ident.as_str());
        out.append(": ");
        out.append(self.ty.as_str());
        out
    }
}

/// Writes the optional type of a patch field.
pub fn render_patch_type(t: &TypePathModel, l: &str) -> (res: String)
    ensures
        res@ == patch_type_text(*t, l@),
{
    let mut segs: Vec<String> = Vec::new();
    let n: usize = t.segments.len();
    let mut i: usize = 0;
    while i < n
        invariant
            n == t.segments@.len(),
            i <= n,
            texts(segs@) =~= patch_segment_texts(*t, l@).take(i as int),
        decreases n - i,
    {
        let ghost s0 = segs@;
        let inner = render_renamed_segment(&t.segments[i]);
        let mut seg = String::from_str("Option<");
        seg.append("&");
        seg.append(l);
        seg.append(" ");
        seg.append(inner.as_str());
        seg.append(" >");
        assert(seg@ =~= patch_segment_texts(*t, l@)[i as int]);
        segs.push(seg);
        assert(texts(segs@) =~= texts(s0).push(patch_segment_texts(*t, l@)[i as int]));
        assert(patch_segment_texts(*t, l@).take(i + 1) =~= patch_segment_texts(*t, l@).take(i as int).push(patch_segment_texts(*t, l@)[i as int]));
        i = i + 1;
    }
    assert(patch_segment_texts(*t, l@).take(n as int) =~= patch_segment_texts(*t, l@));
    render_path(&t.qself, t.leading_colon, &segs)
}

/// Makes the patch field for `x`; a type that is not a path is refused.
fn build_patch_field(x: &ParsedField, l: &str) -> (res: Result<PatchField, CrudError>)
    ensures
        match x.ty {
            TypeModel::Path(_) => res matches Ok(p) && patch_field_of(p, *x, l@),
            TypeModel::Other => fails_with(res, CrudErrorView::UnsupportedFieldType(x.ident@)),
        },
{
    match &x.ty {
        TypeModel::Path(t) => {
            let ty = render_patch_type(t, l);
            Ok(PatchField { ident: x.ident.clone(), ty, vis: x.vis.clone() })
        },
        TypeModel::Other => Err(CrudError::UnsupportedFieldType(x.ident.clone())),
    }
}

/// Makes the patch fields of all fields marked `patchable`, in order.
fn build_patch_fields(fields: &Vec<ParsedField>, l: &str) -> (res: Result<Vec<PatchField>, CrudError>)
    ensures
        match selected_fields(fields@, true) {
            Ok(m) => res matches Ok(ps) && patch_fields_of(ps@, m, l@),
            Err(e) => fails_with(res, e),
        },
{
    let mut r: Vec<PatchField> = Vec::new();
    let n: usize = fields.len();
    let mut i: usize = 0;
    while i < n
        invariant
            n == fields@.len(),
            i <= n,
            first_non_path(marked_fields(fields@.take(i as int), true)) is None,
            patch_fields_of(r@, marked_fields(fields@.take(i as int), true), l@),
        decreases n - i,
    {
        let x = &fields[i];
        assert(fields@.take(i + 1).drop_last() =~= fields@.take(i as int));
        assert(fields@.take(i + 1).last() == fields@[i as int]);
        proof {
            lemma_marked_fields_append(fields@.take(i + 1), fields@.skip(i + 1), true);
            assert(fields@.take(i + 1) + fields@.skip(i + 1) =~= fields@);
        }
        let ghost prev = marked_fields(fields@.take(i as int), true);
        if x.patchable {
            assert(marked_fields(fields@.take(i + 1), true) == prev.push(*x));
            assert(prev.push(*x).drop_last() =~= prev);
            let ghost r0 = r@;
            match build_patch_field(x, l) {
                Ok(p) => {
                    r.push(p);
                    assert(first_non_path(prev.push(*x)) is None);
                    assert forall|j: int| 0 <= j < r@.len() implies patch_field_of(#[trigger] r@[j], prev.push(*x)[j], l@) by {
                        if j < prev.len() {
                            assert(r@[j] == r0[j]);
                        }
                    }
                },
                Err(e) => {
                    assert(first_non_path(prev.push(*x)) == Some(x.ident@));
                    proof {
                        lemma_first_non_path_prefix(
                            marked_fields(fields@.take(i + 1), true),
                            marked_fields(fields@.skip(i + 1), true),
                        );
                    }
                    return Err(e);
                },
            }
        }
        i = i + 1;
    }
    assert(fields@.take(n as int) =~= fields@);
    if r.len() > 0 {
        Ok(r)
    } else {
        Err(CrudError::NoPatchableField)
    }
}

/// The changeset struct declaration.
pub open spec fn patch_struct_text(table_name_quote: Seq<char>, ps: Seq<char>, lt: Seq<char>, decls: Seq<char>) -> Seq<char> {
    "\n#[derive(Debug, AsChangeset, Deserialize)]\n"@ + table_name_quote + "\npub struct "@ + ps + "<"@ + lt
        + "> {\n"@ + decls + "\n}\n"@
}

/// Generates the changeset struct `ps_id` with one optional field per field marked `patchable`.
pub fn generate_patch_struct(
    data_struct: &Vec<ParsedField>,
    main_lifetime: &str,
    r: String,
    table_name_quote: &str,
    ps_id: &str,
) -> (res: Result<String, CrudError>)
    ensures
        match selected_fields(data_struct@, true) {
            Ok(m) => res matches Ok(out) && out@ == r@ + patch_struct_text(
                table_name_quote@,
                ps_id@,
                main_lifetime@,
                join(m.map_values(|f: ParsedField| patch_decl_of(f, main_lifetime@)), ",\n"@),
            ),
            Err(e) => fails_with(res, e),
        },
{
    let patch_fs = match build_patch_fields(data_struct, main_lifetime) {
        Ok(v) => v,
        Err(e) => return Err(e),
    };
    let ghost m = selected_fields(data_struct@, true)->Ok_0;
    let ghost want = m.map_values(|f: ParsedField| patch_decl_of(f, main_lifetime@));
    let mut decls: Vec<String> = Vec::new();
    let n: usize = patch_fs.len();
    let mut i: usize = 0;
    while i < n
        invariant
            n == patch_fs@.len(),
            patch_fields_of(patch_fs@, m, main_lifetime@),
            want == m.map_values(|f: ParsedField| patch_decl_of(f, main_lifetime@)),
            i <= n,
            texts(decls@) =~= want.take(i as int),
        decreases n - i,
    {
        let ghost d0 = decls@;
        decls.push(patch_fs[i].to_tokens());
        assert(patch_field_of(patch_fs@[i as int], m[i as int], main_lifetime@));
        assert(texts(decls@) =~= texts(d0).push(want[i as int]));
        assert(want.take(i + 1) =~= want.take(i as int).push(want[i as int]));
        i = i + 1;
    }
    assert(want.take(n as int) =~= want);
    let decl_text = join_all(&decls, ",\n");
    let mut out = String::from_str("\n#[derive(Debug, AsChangeset, Deserialize)]\n");
    out.append(table_name_quote);
    out.append("\npub struct ");
    out.append(ps_id);
    out.append("<");
    out.append(main_lifetime);
    out.append("> {\n");
    out.append(decl_text.as_str());
    out.append("\n}\n");
    let mut res = r;
    res.append(out.as_str());
    Ok(res)
}

} // verus!
