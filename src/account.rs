//! Reading the balance out of a token account's raw data.
use vstd::prelude::*;

verus! {

/// Length in bytes of a token account without extensions.
pub const TOKEN_ACCOUNT_LEN: usize = 165;

/// The little-endian integer held in `b`.
pub open spec fn le_value(b: Seq<u8>) -> nat
    decreases b.len(),
{
    if b.len() == 0 {
        0
    } else {
        b[0] as nat + 256 * le_value(b.drop_first())
    }
}

/// A four-byte option tag: `[0,0,0,0]` for none, `[1,0,0,0]` for some.
pub open spec fn valid_option_tag(d: Seq<u8>, at: int) -> bool {
    (d[at] == 0 || d[at] == 1) && d[at + 1] == 0 && d[at + 2] == 0 && d[at + 3] == 0
}

/// The data is a packed, initialized token account: the exact length, valid
/// tags for the delegate, native-reserve and close-authority options, and an
/// account state of initialized (1) or frozen (2).
pub open spec fn is_token_account(d: Seq<u8>) -> bool {
    &&& d.len() == TOKEN_ACCOUNT_LEN
    &&& valid_option_tag(d, 72)
    &&& (d[108] == 1 || d[108] == 2)
    &&& valid_option_tag(d, 109)
    &&& valid_option_tag(d, 129)
}

/// The balance field of a packed token account: bytes 64 to 72.
pub open spec fn token_amount(d: Seq<u8>) -> nat {
    le_value(d.subrange(64, 72))
}

/// Relies on spl_token_2022's `Pack::unpack` for `state::Account`: it accepts
/// exactly the layouts of `is_token_account` and reads `amount` from bytes 64
/// to 72, little-endian.
#[verifier::external_body]
fn unpack_amount(data: &[u8]) -> (r: Option<u64>)
    ensures
        r.is_some() <==> is_token_account(data@),
        r matches Some(a) ==> a as nat == token_amount(data@),
{
    <spl_token_2022::state::Account as spl_token_2022::solana_program::program_pack::Pack>::unpack(
        data,
    ).ok().map(|a| a.amount)
}

/// Why account data could not be read as a token balance.
#[derive(Debug, Clone, Copy, PartialEq, Eq, Structural)]
pub enum BalanceError {
    /// The data is not a packed, initialized token account.
    NotATokenAccount,
}

/// The balance held in a token account's raw data.
pub fn token_balance(data: &[u8]) -> (r: Result<u64, BalanceError>)
    ensures
        is_token_account(data@) <==> r.is_ok(),
        r matches Ok(a) ==> a as nat == token_amount(data@),
        r matches Err(e) ==> e == BalanceError::NotATokenAccount,
{
    match unpack_amount(data) {
        Some(a) => Ok(a),
        None => Err(BalanceError::NotATokenAccount),
    }
}

} // verus!
