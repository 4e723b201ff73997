//! Whether a name can become an identifier the way `quote::format_ident!`
//! makes one: a leading `r#` asks for a raw identifier, anything else for a
//! plain one, and `proc_macro2` refuses names that are not identifiers.
use vstd::prelude::*;
use crate::lexical::{is_xid_continue, is_xid_start, xid_continue, xid_start};

verus! {

/// Every character is an ASCII digit (the empty text included).
pub open spec fn all_ascii_digits(s: Seq<char>) -> bool {
    forall|i: int| 0 <= i < s.len() ==> '0' <= #[trigger] s[i] && s[i] <= '9'
}

/// What `proc_macro2` accepts as a plain identifier: not empty, not a number,
/// an underscore or XID_Start character first and XID_Continue characters after.
pub open spec fn valid_plain_ident(s: Seq<char>) -> bool {
    &&& s.len() > 0
    &&& !all_ascii_digits(s)
    &&& (s[0] == '_' || xid_start(s[0]))
    &&& forall|i: int| 1 <= i < s.len() ==> xid_continue(#[trigger] s[i])
}

/// The names that cannot be written as raw identifiers.
pub open spec fn cannot_be_raw(s: Seq<char>) -> bool {
    ||| s == "_"@
    ||| s == "super"@
    ||| s == "self"@
    ||| s == "Self"@
    ||| s == "crate"@
}

/// The text starts with the raw-identifier marker `r#`.
pub open spec fn has_raw_prefix(s: Seq<char>) -> bool {
    s.len() >= 2 && s[0] == 'r' && s[1] == '#'
}

/// Whether `format_ident!` turns the text `s` into an identifier (instead of panicking).
pub open spec fn valid_ident_text(s: Seq<char>) -> bool {
    if has_raw_prefix(s) {
        valid_plain_ident(s.skip(2)) && !cannot_be_raw(s.skip(2))
    } else {
        valid_plain_ident(s)
    }
}

/// Character-wise equality of two texts.
pub fn text_equals(a: &str, b: &str) -> (res: bool)
    ensures
        res == (a@ == b@),
{
    let n: usize = a.unicode_len();
    let m: usize = b.unicode_len();
    if n != m {
        return false;
    }
    let mut i: usize = 0;
    while i < n
        invariant
            n == a@.len(),
            m == b@.len(),
            n == m,
            i <= n,
            forall|j: int| 0 <= j < i ==> a@[j] == b@[j],
        decreases n - i,
    {
        if a.get_char(i) != b.get_char(i) {
            return false;
        }
        i = i + 1;
    }
    assert(a@ =~= b@);
    true
}

fn is_plain_ident(s: &str) -> (res: bool)
    ensures
        res == valid_plain_ident(s@),
{
    let n: usize = s.unicode_len();
    if n == 0 {
        return false;
    }
    let mut digits = true;
    let mut ok = true;
    let mut i: usize = 0;
    while i < n
        invariant
            n == s@.len(),
            n > 0,
            i <= n,
            digits == (forall|j: int| 0 <= j < i ==> '0' <= #[trigger] s@[j] && s@[j] <= '9'),
            ok == (forall|j: int| 1 <= j < i ==> xid_continue(#[trigger] s@[j])),
        decreases n - i,
    {
        let c = s.get_char(i);
        if !('0' <= c && c <= '9') {
            digits = false;
        }
        if i > 0 && !is_xid_continue(c) {
            ok = false;
        }
        i = i + 1;
    }
    let first = s.get_char(0);
    let start = first == '_' || is_xid_start(first);
    !digits && start && ok
}

/// Decides `valid_ident_text`: whether `format_ident!` accepts the text.
pub fn is_valid_ident_text(s: &str) -> (res: bool)
    ensures
        res == valid_ident_text(s@),
{
    let n: usize = s.unicode_len();
    if n >= 2 && s.get_char(0) == 'r' && s.get_char(1) == '#' {
        let rest = s.substring_char(2, n);
        assert(rest@ == s@.skip(2));
        let forbidden = text_equals(rest, "_") || text_equals(rest, "super") || text_equals(rest, "self")
            || text_equals(rest, "Self") || text_equals(rest, "crate");
        is_plain_ident(rest) && !forbidden
    } else {
        is_plain_ident(s)
    }
}

} // verus!
