use vixen_client::account::{token_balance, BalanceError, TOKEN_ACCOUNT_LEN};
use vixen_client::amount::format_balance;

fn packed_account(amount: u64) -> Vec<u8> {
    let mut d = vec![0u8; TOKEN_ACCOUNT_LEN];
    for i in 0..32 {
        d[i] = 7;
        d[32 + i] = 9;
    }
    d[64..72].copy_from_slice(&amount.to_le_bytes());
    d[108] = 1;
    d
}

#[test]
fn format_balance_trims_zeros() {
    assert_eq!(format_balance(10_000_000_000), "10000");
    assert_eq!(format_balance(0), "0");
    assert_eq!(format_balance(9_000_000_000), "9000");
    assert_eq!(format_balance(1_000_000_000), "1000");
    assert_eq!(format_balance(1_500_000), "1.5");
    assert_eq!(format_balance(1), "0.000001");
    assert_eq!(format_balance(123_456_789), "123.456789");
    assert_eq!(format_balance(u64::MAX), "18446744073709.551615");
}

#[test]
fn reads_amount_of_packed_account() {
    assert_eq!(token_balance(&packed_account(10_000_000_000)), Ok(10_000_000_000));
    assert_eq!(token_balance(&packed_account(0)), Ok(0));
    let mut frozen = packed_account(42);
    frozen[108] = 2;
    assert_eq!(token_balance(&frozen), Ok(42));
}

#[test]
fn rejects_uninitialized_account() {
    let mut d = packed_account(5);
    d[108] = 0;
    assert_eq!(token_balance(&d), Err(BalanceError::NotATokenAccount));
    d[108] = 3;
    assert_eq!(token_balance(&d), Err(BalanceError::NotATokenAccount));
}

#[test]
fn rejects_wrong_length_and_bad_tags() {
    let d = packed_account(5);
    assert_eq!(token_balance(&d[..164]), Err(BalanceError::NotATokenAccount));
    let mut longer = d.clone();
    longer.push(0);
    assert_eq!(token_balance(&longer), Err(BalanceError::NotATokenAccount));
    let mut bad_delegate = d.clone();
    bad_delegate[72] = 2;
    assert_eq!(token_balance(&bad_delegate), Err(BalanceError::NotATokenAccount));
    let mut bad_close = d.clone();
    bad_close[130] = 1;
    assert_eq!(token_balance(&bad_close), Err(BalanceError::NotATokenAccount));
    let mut native = d.clone();
    native[109] = 1;
    assert_eq!(token_balance(&native), Ok(5));
}
