//! Window identities, as the toolkit hands them out.
//!
//! A window identity is an opaque token: the library stores two of them and
//! only ever asks whether two tokens are the same.

use vstd::prelude::*;

verus! {

/// `iced::window::Id`, the toolkit's token for one window or surface. Nothing
/// of its inside is visible here.
#[verifier::external_type_specification]
#[verifier::external_body]
pub struct ExWindowId(iced::window::Id);

/// `==` of `iced::window::Id`. The toolkit derives it for a token that wraps one
/// integer, so it holds exactly when both tokens are the same value. Not proved:
/// the contract is taken from the toolkit's source.
#[verifier::external_body]
pub(crate) fn same_window(a: iced::window::Id, b: iced::window::Id) -> (same: bool)
    ensures
        same == (a == b),
{
    a == b
}

} // verus!
