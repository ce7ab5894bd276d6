//! The transactions that the provisioning actions submit, as plain values:
//! which instructions, in which order, and which keys sign. The identity pays
//! for and signs every transaction.
use vstd::prelude::*;
use crate::account::TOKEN_ACCOUNT_LEN;
use crate::provision::Action;

verus! {

/// Length in bytes of a packed mint.
pub const MINT_LEN: usize = 82;

/// The keys of one run.
#[derive(Debug, Clone, Copy, PartialEq, Eq, Structural)]
pub enum KeyRole {
    Identity,
    Mint,
    FirstAccount,
    SecondAccount,
}

/// One instruction of a transaction.
#[derive(Debug, Clone, Copy, PartialEq, Eq, Structural)]
pub enum Instr {
    /// Create an account of `space` bytes owned by the token program, funded
    /// with the rent-exemption minimum for that size.
    CreateAccount { new_account: KeyRole, space: u64 },
    /// Initialize the mint, with the identity as mint authority and no
    /// freeze authority.
    InitializeMint { decimals: u8 },
    /// Initialize a token account of the mint, owned by the identity.
    InitializeAccount { account: KeyRole },
    /// Mint to a token account, with the identity as authority.
    MintTo { account: KeyRole, amount: u64 },
    /// Checked transfer between token accounts, with the identity as owner.
    TransferChecked { from: KeyRole, to: KeyRole, amount: u64, decimals: u8 },
}

/// A transaction to sign and submit.
#[derive(Debug, Clone, PartialEq, Eq)]
pub struct TxPlan {
    pub instructions: Vec<Instr>,
    pub signers: Vec<KeyRole>,
}

/// Relies on spl_token_2022's `Pack::LEN` for `state::Mint`, 82 bytes.
#[verifier::external_body]
fn mint_len() -> (r: usize)
    ensures
        r == MINT_LEN,
{
    <spl_token_2022::state::Mint as spl_token_2022::solana_program::program_pack::Pack>::LEN
}

/// Relies on spl_token_2022's `Pack::LEN` for `state::Account`, 165 bytes.
#[verifier::external_body]
fn token_account_len() -> (r: usize)
    ensures
        r == TOKEN_ACCOUNT_LEN,
{
    <spl_token_2022::state::Account as spl_token_2022::solana_program::program_pack::Pack>::LEN
}

/// The instructions of the transaction that `a` submits.
pub open spec fn tx_instructions(a: Action) -> Seq<Instr> {
    match a {
        Action::CreateMint { decimals } => seq![
            Instr::CreateAccount { new_account: KeyRole::Mint, space: MINT_LEN as u64 },
            Instr::InitializeMint { decimals },
        ],
        Action::CreateTokenAccounts => seq![
            Instr::CreateAccount { new_account: KeyRole::FirstAccount, space: TOKEN_ACCOUNT_LEN as u64 },
            Instr::InitializeAccount { account: KeyRole::FirstAccount },
            Instr::CreateAccount { new_account: KeyRole::SecondAccount, space: TOKEN_ACCOUNT_LEN as u64 },
            Instr::InitializeAccount { account: KeyRole::SecondAccount },
        ],
        Action::MintTo { amount } => seq![Instr::MintTo { account: KeyRole::FirstAccount, amount }],
        Action::TransferChecked { amount, decimals } => seq![
            Instr::TransferChecked {
                from: KeyRole::FirstAccount,
                to: KeyRole::SecondAccount,
                amount,
                decimals,
            },
        ],
        _ => Seq::empty(),
    }
}

/// The keys that sign the transaction that `a` submits.
pub open spec fn tx_signers(a: Action) -> Seq<KeyRole> {
    match a {
        Action::CreateMint { .. } => seq![KeyRole::Identity, KeyRole::Mint],
        Action::CreateTokenAccounts => seq![
            KeyRole::Identity,
            KeyRole::FirstAccount,
            KeyRole::SecondAccount,
        ],
        _ => seq![KeyRole::Identity],
    }
}

/// The action submits a transaction of its own.
pub open spec fn submits_transaction(a: Action) -> bool {
    a is CreateMint || a is CreateTokenAccounts || a is MintTo || a is TransferChecked
}

/// The transaction that `a` submits; `None` for the airdrop, which the
/// service builds, for balance reads and for stopping.
pub fn transaction_for(a: Action) -> (r: Option<TxPlan>)
    ensures
        r is Some <==> submits_transaction(a),
        r matches Some(t) ==> t.instructions@ == tx_instructions(a) && t.signers@ == tx_signers(a),
{
    match a {
        Action::CreateMint { decimals } => {
            let space = mint_len() as u64;
            let instructions = vec![
                Instr::CreateAccount { new_account: KeyRole::Mint, space },
                Instr::InitializeMint { decimals },
            ];
            let signers = vec![KeyRole::Identity, KeyRole::Mint];
            assert(instructions@ =~= tx_instructions(a));
            assert(signers@ =~= tx_signers(a));
            Some(TxPlan { instructions, signers })
        },
        Action::CreateTokenAccounts => {
            let space = token_account_len() as u64;
            let instructions = vec![
                Instr::CreateAccount { new_account: KeyRole::FirstAccount, space },
                Instr::InitializeAccount { account: KeyRole::FirstAccount },
                Instr::CreateAccount { new_account: KeyRole::SecondAccount, space },
                Instr::InitializeAccount { account: KeyRole::SecondAccount },
            ];
            let signers = vec![KeyRole::Identity, KeyRole::FirstAccount, KeyRole::SecondAccount];
            assert(instructions@ =~= tx_instructions(a));
            assert(signers@ =~= tx_signers(a));
            Some(TxPlan { instructions, signers })
        },
        Action::MintTo { amount } => {
            let instructions = vec![Instr::MintTo { account: KeyRole::FirstAccount, amount }];
            let signers = vec![KeyRole::Identity];
            assert(instructions@ =~= tx_instructions(a));
            assert(signers@ =~= tx_signers(a));
            Some(TxPlan { instructions, signers })
        },
        Action::TransferChecked { amount, decimals } => {
            let instructions = vec![
                Instr::TransferChecked {
                    from: KeyRole::FirstAccount,
                    to: KeyRole::SecondAccount,
                    amount,
                    decimals,
                },
            ];
            let signers = vec![KeyRole::Identity];
            assert(instructions@ =~= tx_instructions(a));
            assert(signers@ =~= tx_signers(a));
            Some(TxPlan { instructions, signers })
        },
        _ => None,
    }
}

/// Every account that a transaction creates signs that transaction, and
/// every account it initializes is created earlier in the same transaction.
pub proof fn lemma_created_accounts_sign(a: Action)
    ensures
        forall|i: int|
            0 <= i < tx_instructions(a).len() ==> match #[trigger] tx_instructions(a)[i] {
                Instr::CreateAccount { new_account, .. } => tx_signers(a).contains(new_account),
                Instr::InitializeAccount { account } => exists|j: int|
                    0 <= j < i && tx_instructions(a)[j] == (Instr::CreateAccount {
                        new_account: account,
                        space: TOKEN_ACCOUNT_LEN as u64,
                    }),
                Instr::InitializeMint { .. } => i > 0 && tx_instructions(a)[i - 1] == (
                Instr::CreateAccount { new_account: KeyRole::Mint, space: MINT_LEN as u64 }),
                _ => true,
            },
{
    let ins = tx_instructions(a);
    let sig = tx_signers(a);
    if a is CreateMint {
        assert(sig[1] == KeyRole::Mint);
    } else if a is CreateTokenAccounts {
        assert(sig[1] == KeyRole::FirstAccount);
        assert(sig[2] == KeyRole::SecondAccount);
        assert(ins[0] == (Instr::CreateAccount { new_account: KeyRole::FirstAccount, space: TOKEN_ACCOUNT_LEN as u64 }));
        assert(ins[2] == (Instr::CreateAccount { new_account: KeyRole::SecondAccount, space: TOKEN_ACCOUNT_LEN as u64 }));
    }
}

} // verus!
