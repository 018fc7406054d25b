//! The host's types that an invocation carries.
//!
//! The dispatcher interprets neither: it hands both on as it got them.

use vstd::prelude::*;

verus! {

/// `solana_program::pubkey::Pubkey`, the 32-byte identity of a program or an
/// account. Nothing is claimed of its contents.
#[verifier::external_type_specification]
#[verifier::external_body]
pub struct ExPubkey(solana_program::pubkey::Pubkey);

/// `solana_program::account_info::AccountInfo`, the host's handle on one
/// account. Nothing is claimed of its contents.
#[verifier::external_type_specification]
#[verifier::external_body]
pub struct ExAccountInfo<'a>(solana_program::account_info::AccountInfo<'a>);

} // verus!
