//! The size of the token accounts that a pool holds its tokens in.

use vstd::prelude::*;
use anchor_spl::token::{Mint, TokenAccount};

verus! {

/// The length of a packed mint without extensions.
pub const MINT_LEN: usize = 82;

/// The length of a packed token account without extensions.
pub const TOKEN_ACCOUNT_LEN: usize = 165;

/// `anchor_spl::token::Mint::LEN`, the packed length of a mint: the crate
/// takes it from `spl_token`'s `Mint`, which packs into 82 bytes.
#[verifier::external_body]
fn mint_len() -> (len: usize)
    ensures
        len == MINT_LEN,
{
    Mint::LEN
}

/// `anchor_spl::token::TokenAccount::LEN`, the packed length of a token
/// account: the crate takes it from `spl_token`'s `Account`, which packs
/// into 165 bytes.
#[verifier::external_body]
fn token_account_len() -> (len: usize)
    ensures
        len == TOKEN_ACCOUNT_LEN,
{
    TokenAccount::LEN
}

/// What a mint's data holds beyond the packed mint: its extensions.
pub open spec fn extension_size(mint_data_len: nat) -> nat {
    if mint_data_len > MINT_LEN {
        (mint_data_len - MINT_LEN) as nat
    } else {
        0
    }
}

/// The size of a token account for a mint whose data is `mint_data_len` bytes
/// long: the packed token account, and as much room for extensions as the
/// mint's own extensions take.
pub open spec fn pool_token_account_size_spec(mint_data_len: nat) -> nat {
    TOKEN_ACCOUNT_LEN as nat + extension_size(mint_data_len)
}

/// The size to create a pool's token account with, given the length of the
/// mint's data. `None` when the size does not fit the machine's word.
pub fn pool_token_account_size(mint_data_len: usize) -> (size: Option<usize>)
    ensures
        size == if pool_token_account_size_spec(mint_data_len as nat) <= usize::MAX {
            Some(pool_token_account_size_spec(mint_data_len as nat) as usize)
        } else {
            None
        },
        size matches Some(n) ==> n >= TOKEN_ACCOUNT_LEN,
{
    let extensions: usize = mint_data_len.saturating_sub(mint_len());
    token_account_len().checked_add(extensions)
}

} // verus!
