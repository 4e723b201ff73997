//! The `delete` operation: a Diesel delete function and a DELETE endpoint.
use vstd::prelude::*;
use crate::lexical::str_literal_spelling;
use self::endpoint_gen::{delete_endpoint_text, generate_delete_endpoints};
use self::func_gen::{delete_func_text, generate_delete_func};

pub mod func_gen;
pub mod endpoint_gen;

verus! {

/// The code that `delete` adds.
pub open spec fn delete_code(s: Seq<char>, endpoint_w_param: Seq<char>) -> Seq<char> {
    delete_func_text(s) + delete_endpoint_text(s, str_literal_spelling(endpoint_w_param))
}

/// Generates everything for the `delete` operation and registers its endpoint.
pub fn generate_delete(r: String, s_ident: &str, endpoint_w_param: &str, endpoint_config: String) -> (res: (String, String))
    ensures
        res.0@ == r@ + delete_code(s_ident@, endpoint_w_param@),
        res.1@ == endpoint_config@ + ".service(delete)"@,
{
    let r1 = generate_delete_func(r, s_ident);
    let res = generate_delete_endpoints(r1, s_ident, endpoint_w_param, endpoint_config);
    assert(res.0@ =~= r@ + delete_code(s_ident@, endpoint_w_param@));
    res
}

} // verus!
