use vixen_client::transaction::{transaction_for, Instr, KeyRole, MINT_LEN};
use vixen_client::amount::{format_balance, DECIMALS};
use vixen_client::provision::{
    Action, Event, Failure, Plan, PlanError, Provisioner, Stage, Step, AIRDROP_LAMPORTS,
    MINT_AMOUNT, TRANSFER_AMOUNT,
};

#[test]
fn end_to_end_demo_run() {
    let plan = Plan::demo();
    assert_eq!(plan.decimals, DECIMALS);
    let mut p = Provisioner::new(plan).unwrap();
    assert_eq!(p.next_action(), Action::RequestAirdrop { lamports: 1_000_000_000 });
    p.on_event(Event::Confirmed);
    assert_eq!(p.next_action(), Action::CreateMint { decimals: 6 });
    p.on_event(Event::Confirmed);
    assert_eq!(p.next_action(), Action::CreateTokenAccounts);
    p.on_event(Event::Confirmed);
    assert_eq!(p.next_action(), Action::MintTo { amount: 10_000_000_000 });
    p.on_event(Event::Confirmed);
    assert_eq!(p.next_action(), Action::ReadBalances);
    assert_eq!(format_balance(p.expected.0), "10000");
    assert_eq!(format_balance(p.expected.1), "0");
    p.on_event(Event::Balances { first: 10_000_000_000, second: 0 });
    assert_eq!(
        p.next_action(),
        Action::TransferChecked { amount: 1_000_000_000, decimals: 6 }
    );
    p.on_event(Event::Confirmed);
    assert_eq!(p.next_action(), Action::ReadBalances);
    assert_eq!(format_balance(p.expected.0), "9000");
    assert_eq!(format_balance(p.expected.1), "1000");
    p.on_event(Event::Balances { first: 9_000_000_000, second: 1_000_000_000 });
    assert_eq!(p.stage, Stage::Complete);
    assert_eq!(p.next_action(), Action::Stop);
}

#[test]
fn demo_constants() {
    assert_eq!(AIRDROP_LAMPORTS, 1_000_000_000);
    assert_eq!(MINT_AMOUNT, 10_000_000_000);
    assert_eq!(TRANSFER_AMOUNT, 1_000_000_000);
}

#[test]
fn plan_rejects_transfer_above_mint() {
    assert_eq!(Plan::new(1, 10, 11, 6), Err(PlanError::TransferExceedsMint));
    let ok = Plan::new(1, 10, 10, 6).unwrap();
    assert_eq!(ok.transfer_amount, 10);
    let bad = Plan { airdrop_lamports: 1, mint_amount: 5, transfer_amount: 6, decimals: 0 };
    assert!(matches!(Provisioner::new(bad), Err(PlanError::TransferExceedsMint)));
}

#[test]
fn failure_aborts_at_its_step() {
    let mut p = Provisioner::new(Plan::demo()).unwrap();
    p.on_event(Event::Confirmed);
    p.on_event(Event::Failed);
    assert_eq!(p.stage, Stage::Failed(Failure::StepFailed(Step::CreateMint)));
    assert!(!p.mint_created);
    assert_eq!(p.next_action(), Action::Stop);
    p.on_event(Event::Confirmed);
    assert_eq!(p.stage, Stage::Failed(Failure::StepFailed(Step::CreateMint)));
}

#[test]
fn mint_is_not_used_before_its_creation_is_confirmed() {
    let mut p = Provisioner::new(Plan::demo()).unwrap();
    assert!(!p.funded && !p.mint_created && !p.accounts_created);
    p.on_event(Event::Confirmed);
    assert!(p.funded && !p.mint_created);
    assert_eq!(p.next_action(), Action::CreateMint { decimals: 6 });
    p.on_event(Event::Confirmed);
    assert!(p.mint_created && !p.accounts_created);
    assert_eq!(p.next_action(), Action::CreateTokenAccounts);
}

#[test]
fn wrong_balance_after_mint_is_a_mismatch() {
    let mut p = Provisioner::new(Plan::demo()).unwrap();
    for _ in 0..4 {
        p.on_event(Event::Confirmed);
    }
    p.on_event(Event::Balances { first: 9_999_999_999, second: 1 });
    assert_eq!(
        p.stage,
        Stage::Failed(Failure::BalanceMismatch {
            expected_first: 10_000_000_000,
            expected_second: 0,
            first: 9_999_999_999,
            second: 1,
        })
    );
}

#[test]
fn wrong_balance_after_transfer_is_a_mismatch() {
    let mut p = Provisioner::new(Plan::demo()).unwrap();
    for _ in 0..4 {
        p.on_event(Event::Confirmed);
    }
    p.on_event(Event::Balances { first: 10_000_000_000, second: 0 });
    p.on_event(Event::Confirmed);
    p.on_event(Event::Balances { first: 10_000_000_000, second: 1_000_000_000 });
    assert!(matches!(p.stage, Stage::Failed(Failure::BalanceMismatch { .. })));
}

#[test]
fn confirmation_at_a_read_step_is_unexpected() {
    let mut p = Provisioner::new(Plan::demo()).unwrap();
    for _ in 0..5 {
        p.on_event(Event::Confirmed);
    }
    assert_eq!(p.stage, Stage::Failed(Failure::UnexpectedEvent(Step::ReadMinted)));
}

#[test]
fn balances_at_a_transaction_step_are_unexpected() {
    let mut p = Provisioner::new(Plan::demo()).unwrap();
    p.on_event(Event::Balances { first: 0, second: 0 });
    assert_eq!(p.stage, Stage::Failed(Failure::UnexpectedEvent(Step::FundIdentity)));
}

#[test]
fn mint_transaction_is_signed_by_identity_and_mint() {
    let t = transaction_for(Action::CreateMint { decimals: 6 }).unwrap();
    assert_eq!(MINT_LEN, 82);
    assert_eq!(
        t.instructions,
        vec![
            Instr::CreateAccount { new_account: KeyRole::Mint, space: 82 },
            Instr::InitializeMint { decimals: 6 },
        ]
    );
    assert_eq!(t.signers, vec![KeyRole::Identity, KeyRole::Mint]);
}

#[test]
fn account_transaction_creates_and_initializes_both() {
    let t = transaction_for(Action::CreateTokenAccounts).unwrap();
    assert_eq!(
        t.instructions,
        vec![
            Instr::CreateAccount { new_account: KeyRole::FirstAccount, space: 165 },
            Instr::InitializeAccount { account: KeyRole::FirstAccount },
            Instr::CreateAccount { new_account: KeyRole::SecondAccount, space: 165 },
            Instr::InitializeAccount { account: KeyRole::SecondAccount },
        ]
    );
    assert_eq!(
        t.signers,
        vec![KeyRole::Identity, KeyRole::FirstAccount, KeyRole::SecondAccount]
    );
}

#[test]
fn token_transactions_are_signed_by_identity() {
    let m = transaction_for(Action::MintTo { amount: 10_000_000_000 }).unwrap();
    assert_eq!(
        m.instructions,
        vec![Instr::MintTo { account: KeyRole::FirstAccount, amount: 10_000_000_000 }]
    );
    assert_eq!(m.signers, vec![KeyRole::Identity]);
    let t = transaction_for(Action::TransferChecked { amount: 1_000_000_000, decimals: 6 }).unwrap();
    assert_eq!(
        t.instructions,
        vec![Instr::TransferChecked {
            from: KeyRole::FirstAccount,
            to: KeyRole::SecondAccount,
            amount: 1_000_000_000,
            decimals: 6,
        }]
    );
    assert!(transaction_for(Action::RequestAirdrop { lamports: 1 }).is_none());
    assert!(transaction_for(Action::ReadBalances).is_none());
    assert!(transaction_for(Action::Stop).is_none());
}
