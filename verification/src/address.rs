//! The address type of `cosmwasm_std` as the verifier sees it.
//!
//! An [`Addr`] is opaque to the verifier. What the role's logic needs of it is
//! the text that it holds, which the uninterpreted function [`addr_text`]
//! names, and three of its operations: copying, comparing and handing the
//! text out. Their contracts below are not proved. They say what the source of
//! `cosmwasm_std` shows: an `Addr` is a `String` in a wrapper, and it derives
//! `Clone` and `PartialEq`.

use cosmwasm_std::Addr;
use cosmwasm_std::StdError;
use vstd::prelude::*;

verus! {

/// `cosmwasm_std::Addr`: an immutable address, held as text.
#[verifier::external_type_specification]
#[verifier::external_body]
pub struct ExAddr(Addr);

/// `cosmwasm_std::StdError`: the error that address validation fails with.
/// The role's logic only carries it through.
#[verifier::external_type_specification]
#[verifier::external_body]
pub struct ExStdError(StdError);

/// The text that an address holds: the one that `Addr::as_str` shows and
/// `Addr::into_string` hands out.
pub uninterp spec fn addr_text(addr: Addr) -> Seq<char>;

/// The text of an optional address.
pub open spec fn opt_addr_text(addr: Option<Addr>) -> Option<Seq<char>> {
    match addr {
        Some(a) => Some(addr_text(a)),
        None => None,
    }
}

/// `Addr::clone`, which `Addr` derives: the copy is the same address as the
/// one copied.
pub assume_specification[ <Addr as Clone>::clone ](addr: &Addr) -> (copy: Addr)
    ensures
        copy == *addr,
;

/// `Addr::into_string`: the string that comes out is the text that the
/// address holds.
pub assume_specification[ Addr::into_string ](addr: Addr) -> (text: String)
    ensures
        text@ == addr_text(addr),
;

/// `==` on `Addr`, which `Addr` derives from that of its `String`: two
/// addresses compare equal exactly when they hold the same text.
#[verifier::external_body]
pub(crate) fn same_addr(a: &Addr, b: &Addr) -> (same: bool)
    ensures
        same == (addr_text(*a) == addr_text(*b)),
{
    a == b
}

/// A copy of an optional address.
pub(crate) fn clone_opt_addr(addr: &Option<Addr>) -> (copy: Option<Addr>)
    ensures
        copy == *addr,
{
    match addr {
        Some(a) => Some(a.clone()),
        None => None,
    }
}

/// Whether `held` is present and is the same address as `who`.
pub(crate) fn holds_addr(held: &Option<Addr>, who: &Addr) -> (holds: bool)
    ensures
        holds == (opt_addr_text(*held) == Some(addr_text(*who))),
{
    match held {
        Some(a) => same_addr(a, who),
        None => false,
    }
}

} // verus!
