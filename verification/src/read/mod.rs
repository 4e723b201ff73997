//! The `read` operation: Diesel query functions and two GET endpoints.
use vstd::prelude::*;
use crate::lexical::str_literal_spelling;
use self::endpoint_gen::{generate_read_endpoints, read_endpoints_text};
use self::func_gen::{generate_read_funcs, read_funcs_text};

pub mod func_gen;
pub mod endpoint_gen;

verus! {

/// The code that `read` adds.
pub open spec fn read_code(s: Seq<char>, endpoint: Seq<char>, endpoint_w_param: Seq<char>) -> Seq<char> {
    read_funcs_text(s) + read_endpoints_text(
        s,
        str_literal_spelling(endpoint),
        str_literal_spelling(endpoint_w_param),
    )
}

/// Generates everything for the `read` operation and registers its endpoints.
pub fn generate_read(r: String, s_ident: &str, endpoint: &str, endpoint_w_param: &str, endpoint_config: String) -> (res: (
    String,
    String,
))
    ensures
        res.0@ == r@ + read_code(s_ident@, endpoint@, endpoint_w_param@),
        res.1@ == endpoint_config@ + ".service(read).service(get)"@,
{
    let r1 = generate_read_funcs(r, s_ident);
    let res = generate_read_endpoints(r1, s_ident, endpoint, endpoint_w_param, endpoint_config);
    assert(res.0@ =~= r@ + read_code(s_ident@, endpoint@, endpoint_w_param@));
    res
}

} // verus!
