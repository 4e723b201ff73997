//! Reading the struct's outer attributes (`derive`, `operations`, `table_name`)
//! and the markers on its fields (`creatable`, `patchable`).
use vstd::prelude::*;
use crate::commons::{fails_with, texts, CrudError, CrudErrorView};
use crate::ident::text_equals;
use crate::input::{AttributeModel, LitModel, MetaModel, NestedMetaModel};

verus! {

/// What the outer attributes say: the derived traits (by last identifier),
/// the requested operations, and the table name.
pub struct AttrsRead {
    pub derived: Seq<Seq<char>>,
    pub operations: Option<Seq<Seq<char>>>,
    pub table_name: Option<Seq<char>>,
}

/// The identifiers of nested paths; `None` as soon as an item is not a path.
pub open spec fn nested_paths(ns: Seq<NestedMetaModel>) -> Option<Seq<Seq<char>>>
    decreases ns.len(),
{
    if ns.len() == 0 {
        Some(seq![])
    } else {
        match nested_paths(ns.drop_last()) {
            None => None,
            Some(v) => match ns.last() {
                NestedMetaModel::Path(p) => Some(v.push(p@)),
                _ => None,
            },
        }
    }
}

/// The values of nested string literals; `None` as soon as an item is not one.
pub open spec fn nested_strs(ns: Seq<NestedMetaModel>) -> Option<Seq<Seq<char>>>
    decreases ns.len(),
{
    if ns.len() == 0 {
        Some(seq![])
    } else {
        match nested_strs(ns.drop_last()) {
            None => None,
            Some(v) => match ns.last() {
                NestedMetaModel::Str(p) => Some(v.push(p@)),
                _ => None,
            },
        }
    }
}

/// Reading one attribute on top of what was read before. Every attribute must
/// parse as a meta item; `derive` must list paths, `operations` must list
/// string literals, `table_name` must be `= "string"`. A later `derive`,
/// `operations` or `table_name` replaces an earlier one; other names are ignored.
pub open spec fn attr_step(st: AttrsRead, a: AttributeModel) -> Result<AttrsRead, CrudErrorView> {
    let bad = Err(CrudErrorView::MalformedAttribute(a.name@));
    match a.meta {
        MetaModel::Unparsable => bad,
        _ => if a.name@ == "derive"@ {
            match a.meta {
                MetaModel::List(ns) => match nested_paths(ns@) {
                    Some(v) => Ok(AttrsRead { derived: v, operations: st.operations, table_name: st.table_name }),
                    None => bad,
                },
                _ => bad,
            }
        } else if a.name@ == "operations"@ {
            match a.meta {
                MetaModel::List(ns) => match nested_strs(ns@) {
                    Some(v) => Ok(AttrsRead { derived: st.derived, operations: Some(v), table_name: st.table_name }),
                    None => bad,
                },
                _ => bad,
            }
        } else if a.name@ == "table_name"@ {
            match a.meta {
                MetaModel::NameValue(LitModel::Str(v)) => Ok(
                    AttrsRead { derived: st.derived, operations: st.operations, table_name: Some(v@) },
                ),
                _ => bad,
            }
        } else {
            Ok(st)
        },
    }
}

/// Reading the attributes in order, stopping at the first one that cannot be read.
pub open spec fn attrs_read(attrs: Seq<AttributeModel>) -> Result<AttrsRead, CrudErrorView>
    decreases attrs.len(),
{
    if attrs.len() == 0 {
        Ok(AttrsRead { derived: seq![], operations: None, table_name: None })
    } else {
        match attrs_read(attrs.drop_last()) {
            Err(e) => Err(e),
            Ok(st) => attr_step(st, attrs.last()),
        }
    }
}

/// The views of optional strings.
pub open spec fn opt_texts(o: Option<Vec<String>>) -> Option<Seq<Seq<char>>> {
    match o {
        Some(v) => Some(texts(v@)),
        None => None,
    }
}

/// The view of an optional string.
pub open spec fn opt_text(o: Option<String>) -> Option<Seq<char>> {
    match o {
        Some(s) => Some(s@),
        None => None,
    }
}

/// The executable values hold what `st` says.
pub open spec fn holds_read(d: Vec<String>, o: Option<Vec<String>>, t: Option<String>, st: AttrsRead) -> bool {
    &&& texts(d@) == st.derived
    &&& opt_texts(o) == st.operations
    &&& opt_text(t) == st.table_name
}

fn collect_paths(ns: &Vec<NestedMetaModel>) -> (res: Option<Vec<String>>)
    ensures
        match nested_paths(ns@) {
            Some(v) => res matches Some(x) && texts(x@) == v,
            None => res is None,
        },
{
    let mut out: Vec<String> = Vec::new();
    let n: usize = ns.len();
    let mut i: usize = 0;
    while i < n
        invariant
            n == ns@.len(),
            i <= n,
            nested_paths(ns@.take(i as int)) == Some(texts(out@)),
        decreases n - i,
    {
        assert(ns@.take(i + 1).drop_last() =~= ns@.take(i as int));
        assert(ns@.take(i + 1).last() == ns@[i as int]);
        match &ns[i] {
            NestedMetaModel::Path(p) => {
                let ghost o0 = out@;
                out.push(p.clone());
                assert(texts(out@) =~= texts(o0).push(p@));
            },
            _ => {
                proof { lemma_nested_paths_none(ns@, i as int + 1); }
                return None;
            },
        }
        i = i + 1;
    }
    assert(ns@.take(n as int) =~= ns@);
    Some(out)
}

proof fn lemma_nested_paths_none(ns: Seq<NestedMetaModel>, k: int)
    requires
        0 <= k <= ns.len(),
        nested_paths(ns.take(k)) is None,
    ensures
        nested_paths(ns) is None,
    decreases ns.len() - k,
{
    if k < ns.len() {
        assert(ns.take(k + 1).drop_last() =~= ns.take(k));
        lemma_nested_paths_none(ns, k + 1);
    } else {
        assert(ns.take(k) =~= ns);
    }
}

proof fn lemma_nested_strs_none(ns: Seq<NestedMetaModel>, k: int)
    requires
        0 <= k <= ns.len(),
        nested_strs(ns.take(k)) is None,
    ensures
        nested_strs(ns) is None,
    decreases ns.len() - k,
{
    if k < ns.len() {
        assert(ns.take(k + 1).drop_last() =~= ns.take(k));
        lemma_nested_strs_none(ns, k + 1);
    } else {
        assert(ns.take(k) =~= ns);
    }
}

fn collect_strs(ns: &Vec<NestedMetaModel>) -> (res: Option<Vec<String>>)
    ensures
        match nested_strs(ns@) {
            Some(v) => res matches Some(x) && texts(x@) == v,
            None => res is None,
        },
{
    let mut out: Vec<String> = Vec::new();
    let n: usize = ns.len();
    let mut i: usize = 0;
    while i < n
        invariant
            n == ns@.len(),
            i <= n,
            nested_strs(ns@.take(i as int)) == Some(texts(out@)),
        decreases n - i,
    {
        assert(ns@.take(i + 1).drop_last() =~= ns@.take(i as int));
        assert(ns@.take(i + 1).last() == ns@[i as int]);
        match &ns[i] {
            NestedMetaModel::Str(p) => {
                let ghost o0 = out@;
                out.push(p.clone());
                assert(texts(out@) =~= texts(o0).push(p@));
            },
            _ => {
                proof { lemma_nested_strs_none(ns@, i as int + 1); }
                return None;
            },
        }
        i = i + 1;
    }
    assert(ns@.take(n as int) =~= ns@);
    Some(out)
}

/// Reads the outer attributes: the derived traits, the requested operations
/// and the table name, as `attrs_read` says; an attribute that cannot be read
/// is reported by name.
pub fn parse_attributes(attrs: &Vec<AttributeModel>) -> (res: Result<(Vec<String>, Option<Vec<String>>, Option<String>), CrudError>)
    ensures
        match attrs_read(attrs@) {
            Ok(st) => res matches Ok((d, o, t)) && holds_read(d, o, t, st),
            Err(e) => fails_with(res, e),
        },
{
    let mut derived_traits: Vec<String> = Vec::new();
    let mut operations: Option<Vec<String>> = None;
    let mut table_name: Option<String> = None;
    let n: usize = attrs.len();
    let mut i: usize = 0;
    assert(texts(derived_traits@) =~= Seq::<Seq<char>>::empty());
    while i < n
        invariant
            n == attrs@.len(),
            i <= n,
            attrs_read(attrs@.take(i as int)) matches Ok(st) && holds_read(derived_traits, operations, table_name, st),
        decreases n - i,
    {
        let x = &attrs[i];
        let ghost st = attrs_read(attrs@.take(i as int))->Ok_0;
        assert(attrs@.take(i + 1).drop_last() =~= attrs@.take(i as int));
        assert(attrs@.take(i + 1).last() == attrs@[i as int]);
        proof { lemma_attrs_read_err_prefix(attrs@, i as int + 1); }
        if let MetaModel::Unparsable = &x.meta {
            return Err(CrudError::MalformedAttribute(x.name.clone()));
        }
        if text_equals(x.name.as_str(), "derive") {
            match &x.meta {
                MetaModel::List(ns) => match collect_paths(ns) {
                    Some(v) => {
                        derived_traits = v;
                    },
                    None => {
                        return Err(CrudError::MalformedAttribute(x.name.clone()));
                    },
                },
                _ => {
                    return Err(CrudError::MalformedAttribute(x.name.clone()));
                },
            }
        } else if text_equals(x.name.as_str(), "operations") {
            match &x.meta {
                MetaModel::List(ns) => match collect_strs(ns) {
                    Some(v) => {
                        operations = Some(v);
                    },
                    None => {
                        return Err(CrudError::MalformedAttribute(x.name.clone()));
                    },
                },
                _ => {
                    return Err(CrudError::MalformedAttribute(x.name.clone()));
                },
            }
        } else if text_equals(x.name.as_str(), "table_name") {
            match &x.meta {
                MetaModel::NameValue(LitModel::Str(v)) => {
                    table_name = Some(v.clone());
                },
                _ => {
                    return Err(CrudError::MalformedAttribute(x.name.clone()));
                },
            }
        }
        i = i + 1;
    }
    assert(attrs@.take(n as int) =~= attrs@);
    Ok((derived_traits, operations, table_name))
}

/// Once an attribute cannot be read, reading more attributes keeps the same error.
proof fn lemma_attrs_read_err_prefix(attrs: Seq<AttributeModel>, k: int)
    requires
        0 <= k <= attrs.len(),
    ensures
        attrs_read(attrs.take(k)) is Err ==> attrs_read(attrs) == attrs_read(attrs.take(k)),
    decreases attrs.len() - k,
{
    if k < attrs.len() {
        assert(attrs.take(k + 1).drop_last() =~= attrs.take(k));
        lemma_attrs_read_err_prefix(attrs, k + 1);
    } else {
        assert(attrs.take(k) =~= attrs);
    }
}

/// One attribute name folded into the `(creatable, patchable)` markers.
pub open spec fn inner_step(acc: (bool, bool), name: Seq<char>) -> (bool, bool) {
    if acc.0 && acc.1 {
        acc
    } else {
        (acc.0 || name == "creatable"@, acc.1 || name == "patchable"@)
    }
}

/// The markers of a field with the given attribute names, folded from `(false, false)`.
pub open spec fn inner_flags(names: Seq<Seq<char>>) -> (bool, bool)
    decreases names.len(),
{
    if names.len() == 0 {
        (false, false)
    } else {
        inner_step(inner_flags(names.drop_last()), names.last())
    }
}

/// Folds one field attribute (by its last identifier) into the markers
/// `(creatable, patchable)`.
pub fn parse_inner_attributes(acc: (bool, bool), a: &String) -> (res: (bool, bool))
    ensures
        res == inner_step(acc, a@),
{
    if acc.0 && acc.1 {
        return acc;
    }
    let (mut creatable, mut patchable) = acc;
    if text_equals(a.as_str(), "creatable") {
        creatable = true;
    } else if text_equals(a.as_str(), "patchable") {
        patchable = true;
    }
    proof {
        assert(a@ == "creatable"@ ==> a@ != "patchable"@) by {
            reveal_strlit("creatable");
            reveal_strlit("patchable");
            if a@ == "creatable"@ {
                assert(a@[0] != "patchable"@[0]);
            }
        }
    }
    (creatable, patchable)
}

/// A field is creatable exactly when one of its attributes is named
/// `creatable`, and patchable exactly when one is named `patchable`.
pub proof fn lemma_inner_flags_are_markers(names: Seq<Seq<char>>)
    ensures
        inner_flags(names).0 <==> names.contains("creatable"@),
        inner_flags(names).1 <==> names.contains("patchable"@),
    decreases names.len(),
{
    if names.len() > 0 {
        let init = names.drop_last();
        lemma_inner_flags_are_markers(init);
        if init.contains("creatable"@) {
            let j: int = choose|j: int| 0 <= j < init.len() && init[j] == "creatable"@;
            assert(names[j] == "creatable"@);
        }
        if init.contains("patchable"@) {
            let j: int = choose|j: int| 0 <= j < init.len() && init[j] == "patchable"@;
            assert(names[j] == "patchable"@);
        }
        if names.contains("creatable"@) {
            let j: int = choose|j: int| 0 <= j < names.len() && names[j] == "creatable"@;
            if j < init.len() {
                assert(init[j] == "creatable"@);
            }
        }
        if names.contains("patchable"@) {
            let j: int = choose|j: int| 0 <= j < names.len() && names[j] == "patchable"@;
            if j < init.len() {
                assert(init[j] == "patchable"@);
            }
        }
        assert(names[names.len() - 1] == names.last());
    }
}

} // verus!
