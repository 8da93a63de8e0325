//! The acknowledgment that an entry point hands back to the host: a
//! `cosmwasm_std::Response`, built by that crate and read here through two
//! names.

use cosmwasm_std::Response;
use vstd::prelude::*;

verus! {

#[verifier::external_type_specification]
#[verifier::external_body]
pub struct ExEmpty(cosmwasm_std::Empty);

#[verifier::external_type_specification]
#[verifier::external_body]
#[verifier::reject_recursive_types(T)]
pub struct ExResponse<T>(cosmwasm_std::Response<T>);

/// Attributes as the specifications see them: each a key and a value.
pub type Attributes = Seq<(Seq<char>, Seq<char>)>;

/// The attributes of a response, in the order in which they were added.
pub uninterp spec fn response_attributes(r: Response) -> Attributes;

/// What a response carries besides its attributes: the number of its
/// messages and of its events, and one more where it holds data.
pub uninterp spec fn response_extras(r: Response) -> nat;

/// The one attribute that names the action that was carried out.
pub open spec fn action_attributes(action: Seq<char>) -> Attributes {
    seq![("action"@, action)]
}

/// `Response::new`: a response with no attributes, messages or events, and
/// without data.
#[verifier::external_body]
pub(crate) fn empty_response() -> (r: Response)
    ensures
        response_attributes(r) == Attributes::empty(),
        response_extras(r) == 0,
{
    Response::new()
}

/// `Response::add_attribute`: the same response with one more attribute,
/// made of `key` and `value`, after those it had. Keys that start with an
/// underscore are reserved: on one the outside function panics where debug
/// assertions are on, so no such key is admitted.
#[verifier::external_body]
pub(crate) fn with_attribute(r: Response, key: &str, value: &str) -> (out: Response)
    requires
        key@.len() > 0 ==> key@[0] != '_',
    ensures
        response_attributes(out) == response_attributes(r).push((key@, value@)),
        response_extras(out) == response_extras(r),
{
    r.add_attribute(key, value)
}

/// A response whose only content is the attribute `action`.
pub fn action_response(action: &str) -> (r: Response)
    ensures
        response_attributes(r) == action_attributes(action@),
        response_extras(r) == 0,
{
    proof {
        reveal_strlit("action");
    }
    let r = with_attribute(empty_response(), "action", action);
    assert(response_attributes(r) =~= action_attributes(action@));
    r
}

} // verus!
