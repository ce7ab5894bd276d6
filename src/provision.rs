//! The provisioning sequence: fund an identity, create a mint and two token
//! accounts, mint a supply, read the balances, transfer, read them again.
//! Each step is driven by the caller, who performs the action that
//! `next_action` names and reports its outcome to `on_event`.
use vstd::prelude::*;
use crate::amount::DECIMALS;

verus! {

/// Lamports requested for the fresh identity.
pub const AIRDROP_LAMPORTS: u64 = 1_000_000_000;

/// Raw units minted to the first token account.
pub const MINT_AMOUNT: u64 = 10_000_000_000;

/// Raw units moved from the first token account to the second.
pub const TRANSFER_AMOUNT: u64 = 1_000_000_000;

/// The amounts one run works with.
#[derive(Debug, Clone, Copy, PartialEq, Eq, Structural)]
pub struct Plan {
    pub airdrop_lamports: u64,
    pub mint_amount: u64,
    pub transfer_amount: u64,
    pub decimals: u8,
}

/// Why a plan was refused.
#[derive(Debug, Clone, Copy, PartialEq, Eq, Structural)]
pub enum PlanError {
    /// The transfer would move more than was minted.
    TransferExceedsMint,
}

impl Plan {
    /// A plan with the given amounts; the transfer may not exceed the mint.
    pub fn new(airdrop_lamports: u64, mint_amount: u64, transfer_amount: u64, decimals: u8) -> (r:
        Result<Plan, PlanError>)
        ensures
            transfer_amount <= mint_amount <==> r.is_ok(),
            r matches Ok(p) ==> p == (Plan { airdrop_lamports, mint_amount, transfer_amount, decimals }),
            r matches Err(e) ==> e == PlanError::TransferExceedsMint,
    {
        if transfer_amount <= mint_amount {
            Ok(Plan { airdrop_lamports, mint_amount, transfer_amount, decimals })
        } else {
            Err(PlanError::TransferExceedsMint)
        }
    }

    /// The fixed plan of the demonstration run.
    pub fn demo() -> (r: Plan)
        ensures
            r == (Plan {
                airdrop_lamports: AIRDROP_LAMPORTS,
                mint_amount: MINT_AMOUNT,
                transfer_amount: TRANSFER_AMOUNT,
                decimals: DECIMALS,
            }),
    {
        Plan {
            airdrop_lamports: AIRDROP_LAMPORTS,
            mint_amount: MINT_AMOUNT,
            transfer_amount: TRANSFER_AMOUNT,
            decimals: DECIMALS,
        }
    }
}

/// The steps of the sequence, in order.
#[derive(Debug, Clone, Copy, PartialEq, Eq, Structural)]
pub enum Step {
    FundIdentity,
    CreateMint,
    CreateAccounts,
    MintSupply,
    ReadMinted,
    Transfer,
    ReadTransferred,
}

/// Position of a step in the sequence.
pub open spec fn step_index(s: Step) -> nat {
    match s {
        Step::FundIdentity => 0,
        Step::CreateMint => 1,
        Step::CreateAccounts => 2,
        Step::MintSupply => 3,
        Step::ReadMinted => 4,
        Step::Transfer => 5,
        Step::ReadTransferred => 6,
    }
}

/// Why the sequence stopped early.
#[derive(Debug, Clone, Copy, PartialEq, Eq, Structural)]
pub enum Failure {
    /// The step's operation reported an error.
    StepFailed(Step),
    /// The step received an outcome that does not belong to it.
    UnexpectedEvent(Step),
    /// A balance read disagreed with the balances the confirmed steps imply.
    BalanceMismatch { expected_first: u64, expected_second: u64, first: u64, second: u64 },
}

/// Where the sequence stands.
#[derive(Debug, Clone, Copy, PartialEq, Eq, Structural)]
pub enum Stage {
    Running(Step),
    Complete,
    Failed(Failure),
}

/// What the caller performs next.
#[derive(Debug, Clone, Copy, PartialEq, Eq, Structural)]
pub enum Action {
    /// Airdrop to the identity, then poll until finalized.
    RequestAirdrop { lamports: u64 },
    /// Create and initialize the mint, signed by the identity and the mint key.
    CreateMint { decimals: u8 },
    /// Create and initialize both token accounts in one transaction.
    CreateTokenAccounts,
    /// Mint to the first token account.
    MintTo { amount: u64 },
    /// Fetch and decode both token accounts.
    ReadBalances,
    /// Checked transfer from the first token account to the second.
    TransferChecked { amount: u64, decimals: u8 },
    /// Nothing is left to do.
    Stop,
}

/// The outcome of an action, as the caller observed it.
#[derive(Debug, Clone, Copy, PartialEq, Eq, Structural)]
pub enum Event {
    /// The action's transaction was confirmed.
    Confirmed,
    /// The balances of the first and second token account.
    Balances { first: u64, second: u64 },
    /// The action failed.
    Failed,
}

/// The action needs a funded identity.
pub open spec fn needs_funds(a: Action) -> bool {
    !(a is RequestAirdrop || a is Stop)
}

/// The action names the mint.
pub open spec fn uses_mint(a: Action) -> bool {
    a is CreateTokenAccounts || a is MintTo || a is TransferChecked
}

/// The action names the token accounts.
pub open spec fn uses_accounts(a: Action) -> bool {
    a is MintTo || a is ReadBalances || a is TransferChecked
}

/// One run of the sequence.
#[derive(Debug, Clone, Copy)]
pub struct Provisioner {
    pub plan: Plan,
    pub stage: Stage,
    /// The airdrop was confirmed finalized.
    pub funded: bool,
    /// The mint's creation was confirmed.
    pub mint_created: bool,
    /// The token accounts' creation was confirmed.
    pub accounts_created: bool,
    /// Balances of the two token accounts that the confirmed steps imply.
    pub expected: (u64, u64),
}

/// The balances implied once the first `n` steps have completed.
pub open spec fn expected_after(plan: Plan, n: nat) -> (u64, u64) {
    if n <= 3 {
        (0, 0)
    } else if n <= 5 {
        (plan.mint_amount, 0)
    } else {
        ((plan.mint_amount - plan.transfer_amount) as u64, plan.transfer_amount)
    }
}

impl Provisioner {
    pub open spec fn wf(&self) -> bool {
        &&& self.plan.transfer_amount <= self.plan.mint_amount
        &&& match self.stage {
            Stage::Running(s) => {
                &&& self.funded == (step_index(s) >= 1)
                &&& self.mint_created == (step_index(s) >= 2)
                &&& self.accounts_created == (step_index(s) >= 3)
                &&& self.expected == expected_after(self.plan, step_index(s))
            },
            Stage::Complete => {
                &&& self.funded && self.mint_created && self.accounts_created
                &&& self.expected == expected_after(self.plan, 7)
            },
            Stage::Failed(_) => true,
        }
    }

    /// A run of `plan` before any step.
    pub open spec fn initial(plan: Plan) -> Provisioner {
        Provisioner {
            plan,
            stage: Stage::Running(Step::FundIdentity),
            funded: false,
            mint_created: false,
            accounts_created: false,
            expected: (0, 0),
        }
    }

    /// The action that the current stage calls for.
    pub open spec fn action_spec(&self) -> Action {
        match self.stage {
            Stage::Running(Step::FundIdentity) => Action::RequestAirdrop {
                lamports: self.plan.airdrop_lamports,
            },
            Stage::Running(Step::CreateMint) => Action::CreateMint { decimals: self.plan.decimals },
            Stage::Running(Step::CreateAccounts) => Action::CreateTokenAccounts,
            Stage::Running(Step::MintSupply) => Action::MintTo { amount: self.plan.mint_amount },
            Stage::Running(Step::ReadMinted) => Action::ReadBalances,
            Stage::Running(Step::Transfer) => Action::TransferChecked {
                amount: self.plan.transfer_amount,
                decimals: self.plan.decimals,
            },
            Stage::Running(Step::ReadTransferred) => Action::ReadBalances,
            _ => Action::Stop,
        }
    }

    /// The state after the caller reports `ev` for the current action.
    pub open spec fn after_event(self, ev: Event) -> Provisioner {
        match self.stage {
            Stage::Running(s) => match ev {
                Event::Failed => Provisioner { stage: Stage::Failed(Failure::StepFailed(s)), ..self },
                Event::Confirmed => match s {
                    Step::FundIdentity => Provisioner {
                        stage: Stage::Running(Step::CreateMint),
                        funded: true,
                        ..self
                    },
                    Step::CreateMint => Provisioner {
                        stage: Stage::Running(Step::CreateAccounts),
                        mint_created: true,
                        ..self
                    },
                    Step::CreateAccounts => Provisioner {
                        stage: Stage::Running(Step::MintSupply),
                        accounts_created: true,
                        ..self
                    },
                    Step::MintSupply => Provisioner {
                        stage: Stage::Running(Step::ReadMinted),
                        expected: (self.plan.mint_amount, 0),
                        ..self
                    },
                    Step::Transfer => Provisioner {
                        stage: Stage::Running(Step::ReadTransferred),
                        expected: (
                            (self.expected.0 - self.plan.transfer_amount) as u64,
                            (self.expected.1 + self.plan.transfer_amount) as u64,
                        ),
                        ..self
                    },
                    _ => Provisioner { stage: Stage::Failed(Failure::UnexpectedEvent(s)), ..self },
                },
                Event::Balances { first, second } => {
                    if !(s is ReadMinted || s is ReadTransferred) {
                        Provisioner { stage: Stage::Failed(Failure::UnexpectedEvent(s)), ..self }
                    } else if (first, second) != self.expected {
                        Provisioner {
                            stage: Stage::Failed(
                                Failure::BalanceMismatch {
                                    expected_first: self.expected.0,
                                    expected_second: self.expected.1,
                                    first,
                                    second,
                                },
                            ),
                            ..self
                        }
                    } else if s is ReadMinted {
                        Provisioner { stage: Stage::Running(Step::Transfer), ..self }
                    } else {
                        Provisioner { stage: Stage::Complete, ..self }
                    }
                },
            },
            _ => self,
        }
    }

    /// A run at its first step.
    pub fn new(plan: Plan) -> (r: Result<Provisioner, PlanError>)
        ensures
            plan.transfer_amount <= plan.mint_amount <==> r.is_ok(),
            r matches Ok(p) ==> p.wf() && p == Provisioner::initial(plan),
            r matches Err(e) ==> e == PlanError::TransferExceedsMint,
    {
        if plan.transfer_amount <= plan.mint_amount {
            Ok(
                Provisioner {
                    plan,
                    stage: Stage::Running(Step::FundIdentity),
                    funded: false,
                    mint_created: false,
                    accounts_created: false,
                    expected: (0, 0),
                },
            )
        } else {
            Err(PlanError::TransferExceedsMint)
        }
    }

    /// The action that the current stage calls for; its inputs exist.
    pub fn next_action(&self) -> (r: Action)
        requires
            self.wf(),
        ensures
            r == self.action_spec(),
            needs_funds(r) ==> self.funded,
            uses_mint(r) ==> self.mint_created,
            uses_accounts(r) ==> self.accounts_created,
    {
        match self.stage {
            Stage::Running(Step::FundIdentity) => Action::RequestAirdrop {
                lamports: self.plan.airdrop_lamports,
            },
            Stage::Running(Step::CreateMint) => Action::CreateMint { decimals: self.plan.decimals },
            Stage::Running(Step::CreateAccounts) => Action::CreateTokenAccounts,
            Stage::Running(Step::MintSupply) => Action::MintTo { amount: self.plan.mint_amount },
            Stage::Running(Step::ReadMinted) => Action::ReadBalances,
            Stage::Running(Step::Transfer) => Action::TransferChecked {
                amount: self.plan.transfer_amount,
                decimals: self.plan.decimals,
            },
            Stage::Running(Step::ReadTransferred) => Action::ReadBalances,
            _ => Action::Stop,
        }
    }

    /// Records the outcome of the current action.
    pub fn on_event(&mut self, ev: Event)
        requires
            old(self).wf(),
        ensures
            *final(self) == old(self).after_event(ev),
            final(self).wf(),
    {
        let s = match self.stage {
            Stage::Running(s) => s,
            _ => {
                return ;
            },
        };
        match ev {
            Event::Failed => {
                self.stage = Stage::Failed(Failure::StepFailed(s));
            },
            Event::Confirmed => match s {
                Step::FundIdentity => {
                    self.stage = Stage::Running(Step::CreateMint);
                    self.funded = true;
                },
                Step::CreateMint => {
                    self.stage = Stage::Running(Step::CreateAccounts);
                    self.mint_created = true;
                },
                Step::CreateAccounts => {
                    self.stage = Stage::Running(Step::MintSupply);
                    self.accounts_created = true;
                },
                Step::MintSupply => {
                    self.stage = Stage::Running(Step::ReadMinted);
                    self.expected = (self.plan.mint_amount, 0);
                },
                Step::Transfer => {
                    self.stage = Stage::Running(Step::ReadTransferred);
                    self.expected = (
                        self.expected.0 - self.plan.transfer_amount,
                        self.expected.1 + self.plan.transfer_amount,
                    );
                },
                _ => {
                    self.stage = Stage::Failed(Failure::UnexpectedEvent(s));
                },
            },
            Event::Balances { first, second } => {
                let reading = match s {
                    Step::ReadMinted => true,
                    Step::ReadTransferred => true,
                    _ => false,
                };
                if !reading {
                    self.stage = Stage::Failed(Failure::UnexpectedEvent(s));
                } else if first != self.expected.0 || second != self.expected.1 {
                    self.stage = Stage::Failed(
                        Failure::BalanceMismatch {
                            expected_first: self.expected.0,
                            expected_second: self.expected.1,
                            first,
                            second,
                        },
                    );
                } else if s == Step::ReadMinted {
                    self.stage = Stage::Running(Step::Transfer);
                } else {
                    self.stage = Stage::Complete;
                }
            },
        }
    }
}

/// The state after the outcomes `events`, reported in order from `p`.
pub open spec fn run(p: Provisioner, events: Seq<Event>) -> Provisioner
    decreases events.len(),
{
    if events.len() == 0 {
        p
    } else {
        run(p, events.drop_last()).after_event(events.last())
    }
}

/// Every outcome keeps a well-formed run well-formed.
pub proof fn lemma_after_event_wf(p: Provisioner, ev: Event)
    requires
        p.wf(),
    ensures
        p.after_event(ev).wf(),
        p.after_event(ev).plan == p.plan,
{
}

/// A run of a valid plan stays well-formed, whatever outcomes it is told.
pub proof fn lemma_run_wf(plan: Plan, events: Seq<Event>)
    requires
        plan.transfer_amount <= plan.mint_amount,
    ensures
        run(Provisioner::initial(plan), events).wf(),
        run(Provisioner::initial(plan), events).plan == plan,
    decreases events.len(),
{
    if events.len() > 0 {
        lemma_run_wf(plan, events.drop_last());
        lemma_after_event_wf(run(Provisioner::initial(plan), events.drop_last()), events.last());
    }
}

proof fn lemma_prefix_step(p: Provisioner, events: Seq<Event>, i: int)
    requires
        0 <= i < events.len(),
    ensures
        run(p, events.take(i + 1)) == run(p, events.take(i)).after_event(events[i]),
{
    assert(events.take(i + 1).drop_last() =~= events.take(i));
}

/// A step's inputs are used only after the step that creates them was
/// confirmed: whenever the next action needs the funded identity, the mint or
/// the token accounts, an earlier outcome confirmed the airdrop, the mint's
/// creation or the accounts' creation, each at its own step.
pub proof fn lemma_inputs_confirmed_before_use(plan: Plan, events: Seq<Event>, i: int)
    requires
        plan.transfer_amount <= plan.mint_amount,
        0 <= i <= events.len(),
    ensures
        ({
            let a = run(Provisioner::initial(plan), events.take(i)).action_spec();
            &&& needs_funds(a) ==> exists|k: int|
                0 <= k < i && run(Provisioner::initial(plan), events.take(k)).stage
                    == Stage::Running(Step::FundIdentity) && events[k] is Confirmed
            &&& uses_mint(a) ==> exists|k: int|
                0 <= k < i && run(Provisioner::initial(plan), events.take(k)).stage
                    == Stage::Running(Step::CreateMint) && events[k] is Confirmed
            &&& uses_accounts(a) ==> exists|k: int|
                0 <= k < i && run(Provisioner::initial(plan), events.take(k)).stage
                    == Stage::Running(Step::CreateAccounts) && events[k] is Confirmed
        }),
{
    lemma_flags_have_confirmations(plan, events, i);
    lemma_run_wf(plan, events.take(i));
}

proof fn lemma_flags_have_confirmations(plan: Plan, events: Seq<Event>, i: int)
    requires
        0 <= i <= events.len(),
    ensures
        ({
            let q = run(Provisioner::initial(plan), events.take(i));
            &&& q.funded ==> exists|k: int|
                0 <= k < i && run(Provisioner::initial(plan), events.take(k)).stage
                    == Stage::Running(Step::FundIdentity) && events[k] is Confirmed
            &&& q.mint_created ==> exists|k: int|
                0 <= k < i && run(Provisioner::initial(plan), events.take(k)).stage
                    == Stage::Running(Step::CreateMint) && events[k] is Confirmed
            &&& q.accounts_created ==> exists|k: int|
                0 <= k < i && run(Provisioner::initial(plan), events.take(k)).stage
                    == Stage::Running(Step::CreateAccounts) && events[k] is Confirmed
        }),
    decreases i,
{
    let p0 = Provisioner::initial(plan);
    if i == 0 {
        assert(events.take(0) =~= Seq::<Event>::empty());
    } else {
        lemma_flags_have_confirmations(plan, events, i - 1);
        lemma_prefix_step(p0, events, i - 1);
    }
}

/// After the supply is minted to the empty first account, a balance read is
/// accepted exactly when it reports the minted amount and zero for the
/// untouched account.
pub proof fn lemma_read_after_mint(plan: Plan, events: Seq<Event>, first: u64, second: u64)
    requires
        plan.transfer_amount <= plan.mint_amount,
        run(Provisioner::initial(plan), events).stage == Stage::Running(Step::ReadMinted),
    ensures
        run(Provisioner::initial(plan), events).expected == (plan.mint_amount, 0u64),
        run(Provisioner::initial(plan), events).after_event(Event::Balances { first, second }).stage
            == Stage::Running(Step::Transfer) <==> first == plan.mint_amount && second == 0,
{
    lemma_run_wf(plan, events);
    let q = run(Provisioner::initial(plan), events);
    assert(step_index(Step::ReadMinted) == 4);
    assert(q.expected == expected_after(plan, 4));
}

/// After the transfer, a balance read is accepted exactly when it reports
/// the minted amount less the transfer and the transfer, which together are
/// the minted amount: nothing lost, nothing duplicated.
pub proof fn lemma_read_after_transfer(plan: Plan, events: Seq<Event>, first: u64, second: u64)
    requires
        plan.transfer_amount <= plan.mint_amount,
        run(Provisioner::initial(plan), events).stage == Stage::Running(Step::ReadTransferred),
    ensures
        run(Provisioner::initial(plan), events).expected == (
            (plan.mint_amount - plan.transfer_amount) as u64,
            plan.transfer_amount,
        ),
        run(Provisioner::initial(plan), events).expected.0 + run(
            Provisioner::initial(plan),
            events,
        ).expected.1 == plan.mint_amount,
        run(Provisioner::initial(plan), events).after_event(Event::Balances { first, second }).stage
            == Stage::Complete <==> first == plan.mint_amount - plan.transfer_amount && second
            == plan.transfer_amount,
{
    lemma_run_wf(plan, events);
    let q = run(Provisioner::initial(plan), events);
    assert(step_index(Step::ReadTransferred) == 6);
    assert(q.expected == expected_after(plan, 6));
}

} // verus!
