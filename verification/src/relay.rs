use crate::address::{base58_address, parse_address, Address, Blockhash};
use crate::config::RelayerConfig;
use crate::error::{ConfigField, RelayError};
use crate::models::message::NonceStatus;
use crate::pda::PdaManager;
use crate::transaction::{
    keypair_address, public_key, SignedTransaction, SignedTransactionView, SigningKey,
    TransactionBuilder,
};
use vstd::prelude::*;

verus! {

/// How far the relayer has come: the highest event index whose transfer the
/// destination chain has confirmed. It lives in memory only; a new run
/// starts without it.
#[derive(Clone, Copy, Debug, PartialEq, Eq, Structural)]
pub struct RelayCursor {
    pub last_processed: Option<u64>,
}

impl RelayCursor {
    /// The index of the first event that is not relayed yet, which is also
    /// the number of events relayed so far.
    pub open spec fn next_index(self) -> int {
        match self.last_processed {
            None => 0,
            Some(index) => index + 1,
        }
    }

    /// An event index is always below an event counter, so the highest
    /// `u64` is never a confirmed index.
    pub open spec fn wf(self) -> bool {
        self.last_processed != Some(u64::MAX)
    }

    /// A cursor with nothing processed.
    pub fn new() -> (cursor: RelayCursor)
        ensures
            cursor.last_processed is None,
            cursor.wf(),
    {
        RelayCursor { last_processed: None }
    }

    pub fn next(&self) -> (index: u64)
        requires
            self.wf(),
        ensures
            index == self.next_index(),
    {
        match self.last_processed {
            None => 0,
            Some(index) => index + 1,
        }
    }
}

/// What the relay of one event waits for.
#[derive(Clone, Copy, Debug, PartialEq, Eq)]
pub enum Stage {
    /// The data of the event's record.
    Record,
    /// A freshness token for the transfer that the record asks for.
    Token { amount: u64, to: Address },
    /// The confirmation of the submitted transfer.
    Confirmation,
}

/// Where the relay loop stands.
#[derive(Clone, Copy, Debug, PartialEq, Eq)]
pub enum Phase {
    /// Nothing is under way; the next wake-up starts a poll.
    Idle,
    /// The data of the watched account has been asked for.
    Detecting,
    /// The events from `index` up to, not including, `end` are being
    /// drained, and the relay of `index` waits at `stage`.
    Relaying { index: u64, end: u64, stage: Stage },
    /// The run has ended with an error.
    Fatal(RelayError),
}

/// What the driver reports back after it has done what was asked.
#[derive(Clone, Debug, PartialEq, Eq)]
pub enum Event {
    /// The poll interval is over, or the run begins.
    Wake,
    /// The data of the account that was read.
    AccountData(Vec<u8>),
    /// The account that was read does not exist.
    AccountMissing,
    /// The source chain could not be reached.
    TransportFailure,
    /// The freshness token of the destination chain.
    FreshnessToken(Blockhash),
    /// No freshness token could be had.
    TokenUnavailable,
    /// The destination chain has confirmed the transaction.
    Confirmed,
    /// The destination chain has not confirmed the transaction.
    Rejected,
}

/// What the driver is asked to do next.
#[derive(Clone, Debug, PartialEq, Eq)]
pub enum Action {
    /// Read the data of an account of the source chain.
    ReadAccount(Address),
    /// Fetch a freshness token from the destination chain.
    FetchToken,
    /// Submit the transaction and wait for its confirmation.
    Submit(SignedTransaction),
    /// Wait for the poll interval.
    Sleep,
    /// End the run with the error.
    Halt(RelayError),
}

pub enum ActionView {
    ReadAccount(Address),
    FetchToken,
    Submit(SignedTransactionView),
    Sleep,
    Halt(RelayError),
}

impl View for Action {
    type V = ActionView;

    open spec fn view(&self) -> ActionView {
        match *self {
            Action::ReadAccount(address) => ActionView::ReadAccount(address),
            Action::FetchToken => ActionView::FetchToken,
            Action::Submit(transaction) => ActionView::Submit(transaction@),
            Action::Sleep => ActionView::Sleep,
            Action::Halt(error) => ActionView::Halt(error),
        }
    }
}

/// Everything the relayer knows: its configuration, which never changes,
/// its cursor and the phase of its loop.
#[derive(Clone, Copy, PartialEq, Eq)]
pub struct RelayState {
    pub watched_account: Address,
    pub signing_key: SigningKey,
    pub cursor: RelayCursor,
    pub phase: Phase,
    pub pda_manager: PdaManager,
    pub transaction_builder: TransactionBuilder,
}

impl RelayState {
    /// The event under relay is the first one not relayed yet, and lies
    /// inside the range that is drained.
    pub open spec fn wf(self) -> bool {
        &&& self.cursor.wf()
        &&& match self.phase {
            Phase::Relaying { index, end, stage } => index == self.cursor.next_index() && index
                < end,
            _ => true,
        }
    }

    /// The state at the start of a run: nothing processed, nothing under
    /// way.
    pub open spec fn initial(
        watched_account: Address,
        signing_key: SigningKey,
        pda_manager: PdaManager,
        transaction_builder: TransactionBuilder,
    ) -> RelayState {
        RelayState {
            watched_account,
            signing_key,
            cursor: RelayCursor { last_processed: None },
            phase: Phase::Idle,
            pda_manager,
            transaction_builder,
        }
    }

    /// The run ends with `error`; the cursor stays where it is.
    pub open spec fn halted(self, error: RelayError) -> (RelayState, ActionView) {
        (RelayState { phase: Phase::Fatal(error), ..self }, ActionView::Halt(error))
    }

    /// The relay of `index` begins, given what was derived for it: its
    /// record is read at the derived address.
    pub open spec fn started_at(self, index: u64, end: u64, derived: Option<(Address, u8)>) -> (
        RelayState,
        ActionView,
    ) {
        match derived {
            None => self.halted(RelayError::Derivation),
            Some(found) => (
                RelayState { phase: Phase::Relaying { index, end, stage: Stage::Record }, ..self },
                ActionView::ReadAccount(found.0),
            ),
        }
    }

    /// The relay of `index` begins.
    pub open spec fn started(self, index: u64, end: u64) -> (RelayState, ActionView) {
        self.started_at(index, end, self.pda_manager.address_of(index))
    }

    /// The watched account has been read: where its counter is above the
    /// number of events relayed, the events in between are drained,
    /// lowest first; else the loop sleeps.
    pub open spec fn detected(self, data: Seq<u8>) -> (RelayState, ActionView) {
        match NonceStatus::decoded(data) {
            Err(error) => self.halted(error),
            Ok(status) => if status.nonce > self.cursor.next_index() {
                self.started(self.cursor.next_index() as u64, status.nonce)
            } else {
                (RelayState { phase: Phase::Idle, ..self }, ActionView::Sleep)
            },
        }
    }

    /// The record of `index` has been read: a freshness token is fetched
    /// for the transfer that it asks for.
    pub open spec fn recorded(self, index: u64, end: u64, data: Seq<u8>) -> (
        RelayState,
        ActionView,
    ) {
        match PdaManager::transfer_of(data) {
            Err(error) => self.halted(error),
            Ok(transfer) => (
                RelayState {
                    phase: Phase::Relaying {
                        index,
                        end,
                        stage: Stage::Token { amount: transfer.0, to: transfer.1 },
                    },
                    ..self
                },
                ActionView::FetchToken,
            ),
        }
    }

    /// The transfer of `index` has been built, or could not be: what was
    /// built is submitted.
    pub open spec fn submitted(self, index: u64, end: u64, built: Option<SignedTransactionView>)
        -> (RelayState, ActionView) {
        match built {
            None => self.halted(RelayError::Build),
            Some(transaction) => (
                RelayState {
                    phase: Phase::Relaying { index, end, stage: Stage::Confirmation },
                    ..self
                },
                ActionView::Submit(transaction),
            ),
        }
    }

    /// The transfer of `index` has been confirmed: the cursor moves to
    /// `index`, and the next event of the range is relayed, or the loop
    /// sleeps where there is none.
    pub open spec fn confirmed(self, index: u64, end: u64) -> (RelayState, ActionView) {
        let advanced = RelayState { cursor: RelayCursor { last_processed: Some(index) }, ..self };
        if index + 1 < end {
            advanced.started((index + 1) as u64, end)
        } else {
            (RelayState { phase: Phase::Idle, ..advanced }, ActionView::Sleep)
        }
    }

    /// The next state and what the driver is asked to do, for every state
    /// and every event. An event that the state does not wait for, and
    /// every report of a failure, ends the run.
    pub open spec fn stepped(self, event: Event) -> (RelayState, ActionView) {
        match self.phase {
            Phase::Fatal(error) => (self, ActionView::Halt(error)),
            Phase::Idle => match event {
                Event::Wake => (
                    RelayState { phase: Phase::Detecting, ..self },
                    ActionView::ReadAccount(self.watched_account),
                ),
                _ => self.halted(RelayError::UnexpectedEvent),
            },
            Phase::Detecting => match event {
                Event::AccountData(data) => self.detected(data@),
                Event::AccountMissing => self.halted(RelayError::NotFound),
                Event::TransportFailure => self.halted(RelayError::Transport),
                _ => self.halted(RelayError::UnexpectedEvent),
            },
            Phase::Relaying { index, end, stage } => match stage {
                Stage::Record => match event {
                    Event::AccountData(data) => self.recorded(index, end, data@),
                    Event::AccountMissing => self.halted(RelayError::NotFound),
                    Event::TransportFailure => self.halted(RelayError::Transport),
                    _ => self.halted(RelayError::UnexpectedEvent),
                },
                Stage::Token { amount, to } => match event {
                    Event::FreshnessToken(blockhash) => self.submitted(
                        index,
                        end,
                        self.transaction_builder.built(amount, to, self.signing_key, blockhash),
                    ),
                    Event::TokenUnavailable => self.halted(RelayError::Build),
                    _ => self.halted(RelayError::UnexpectedEvent),
                },
                Stage::Confirmation => match event {
                    Event::Confirmed => self.confirmed(index, end),
                    Event::Rejected => self.halted(RelayError::Submission),
                    _ => self.halted(RelayError::UnexpectedEvent),
                },
            },
        }
    }

    /// The state after a run of events, each taken in its turn.
    pub open spec fn ran(self, events: Seq<Event>) -> RelayState
        decreases events.len(),
    {
        if events.len() == 0 {
            self
        } else {
            self.stepped(events[0]).0.ran(events.skip(1))
        }
    }

    /// Ends the run with `error`.
    pub fn halt(self, error: RelayError) -> (r: (RelayState, Action))
        ensures
            (r.0, r.1@) == self.halted(error),
    {
        (RelayState { phase: Phase::Fatal(error), ..self }, Action::Halt(error))
    }

    /// Begins the relay of `index`, given what was derived for it.
    pub fn start_at(self, index: u64, end: u64, derived: Option<(Address, u8)>) -> (r: (
        RelayState,
        Action,
    ))
        ensures
            (r.0, r.1@) == self.started_at(index, end, derived),
    {
        match derived {
            None => self.halt(RelayError::Derivation),
            Some(found) => (
                RelayState { phase: Phase::Relaying { index, end, stage: Stage::Record }, ..self },
                Action::ReadAccount(found.0),
            ),
        }
    }

    /// Begins the relay of `index`: derives the address of its record and
    /// asks for the data there.
    pub fn start(self, index: u64, end: u64) -> (r: (RelayState, Action))
        ensures
            (r.0, r.1@) == self.started(index, end),
    {
        let derived = self.pda_manager.find_address(index);
        self.start_at(index, end, derived)
    }

    /// Takes the data of the watched account and decides whether there is
    /// anything to drain.
    pub fn detect(self, data: &[u8]) -> (r: (RelayState, Action))
        requires
            self.wf(),
        ensures
            (r.0, r.1@) == self.detected(data@),
    {
        match NonceStatus::from_bytes(data) {
            Err(error) => self.halt(error),
            Ok(status) => {
                let next: u64 = self.cursor.next();
                if status.nonce > next {
                    self.start(next, status.nonce)
                } else {
                    (RelayState { phase: Phase::Idle, ..self }, Action::Sleep)
                }
            },
        }
    }

    /// Takes the data of the record of `index` and asks for a freshness
    /// token.
    pub fn record(self, index: u64, end: u64, data: &[u8]) -> (r: (RelayState, Action))
        ensures
            (r.0, r.1@) == self.recorded(index, end, data@),
    {
        match self.pda_manager.get_transfer_info(data) {
            Err(error) => self.halt(error),
            Ok(transfer) => (
                RelayState {
                    phase: Phase::Relaying {
                        index,
                        end,
                        stage: Stage::Token { amount: transfer.0, to: transfer.1 },
                    },
                    ..self
                },
                Action::FetchToken,
            ),
        }
    }

    /// Takes what was built for the transfer of `index` and hands it out
    /// for submission.
    pub fn submit(self, index: u64, end: u64, built: Result<SignedTransaction, RelayError>) -> (r:
        (RelayState, Action))
        ensures
            (r.0, r.1@) == self.submitted(
                index,
                end,
                match built {
                    Ok(transaction) => Some(transaction@),
                    Err(_) => None,
                },
            ),
    {
        match built {
            Err(_) => self.halt(RelayError::Build),
            Ok(transaction) => (
                RelayState {
                    phase: Phase::Relaying { index, end, stage: Stage::Confirmation },
                    ..self
                },
                Action::Submit(transaction),
            ),
        }
    }

    /// Moves the cursor to the confirmed `index` and goes on with the next
    /// event of the range, if there is one.
    pub fn confirm(self, index: u64, end: u64) -> (r: (RelayState, Action))
        requires
            index < end,
        ensures
            (r.0, r.1@) == self.confirmed(index, end),
    {
        let advanced = RelayState { cursor: RelayCursor { last_processed: Some(index) }, ..self };
        if index + 1 < end {
            advanced.start(index + 1, end)
        } else {
            (RelayState { phase: Phase::Idle, ..advanced }, Action::Sleep)
        }
    }

    /// Takes one event and says what is to be done next.
    pub fn step(self, event: Event) -> (r: (RelayState, Action))
        requires
            self.wf(),
        ensures
            (r.0, r.1@) == self.stepped(event),
            r.0.wf(),
    {
        proof {
            lemma_step_keeps_well_formed(self, event);
        }
        match self.phase {
            Phase::Fatal(error) => (self, Action::Halt(error)),
            Phase::Idle => match event {
                Event::Wake => (
                    RelayState { phase: Phase::Detecting, ..self },
                    Action::ReadAccount(self.watched_account),
                ),
                _ => self.halt(RelayError::UnexpectedEvent),
            },
            Phase::Detecting => match event {
                Event::AccountData(data) => self.detect(data.as_slice()),
                Event::AccountMissing => self.halt(RelayError::NotFound),
                Event::TransportFailure => self.halt(RelayError::Transport),
                _ => self.halt(RelayError::UnexpectedEvent),
            },
            Phase::Relaying { index, end, stage } => match stage {
                Stage::Record => match event {
                    Event::AccountData(data) => self.record(index, end, data.as_slice()),
                    Event::AccountMissing => self.halt(RelayError::NotFound),
                    Event::TransportFailure => self.halt(RelayError::Transport),
                    _ => self.halt(RelayError::UnexpectedEvent),
                },
                Stage::Token { amount, to } => match event {
                    Event::FreshnessToken(blockhash) => {
                        let built = self.transaction_builder.build_transfer_transaction(
                            amount,
                            &to,
                            &self.signing_key,
                            &blockhash,
                        );
                        self.submit(index, end, built)
                    },
                    Event::TokenUnavailable => self.halt(RelayError::Build),
                    _ => self.halt(RelayError::UnexpectedEvent),
                },
                Stage::Confirmation => match event {
                    Event::Confirmed => self.confirm(index, end),
                    Event::Rejected => self.halt(RelayError::Submission),
                    _ => self.halt(RelayError::UnexpectedEvent),
                },
            },
        }
    }
}

/// A step keeps the state well formed.
pub proof fn lemma_step_keeps_well_formed(state: RelayState, event: Event)
    requires
        state.wf(),
    ensures
        state.stepped(event).0.wf(),
{
}

/// The configuration never changes, whatever happens.
pub proof fn lemma_step_keeps_configuration(state: RelayState, event: Event)
    ensures
        state.stepped(event).0.watched_account == state.watched_account,
        state.stepped(event).0.signing_key == state.signing_key,
        state.stepped(event).0.pda_manager == state.pda_manager,
        state.stepped(event).0.transaction_builder == state.transaction_builder,
{
}

/// The cursor moves only when the destination chain confirms the transfer
/// of the event under relay, and then to that event's index, which is one
/// step forward. In every other step, failures included, it stays.
pub proof fn lemma_cursor_moves_on_confirmation_only(state: RelayState, event: Event)
    requires
        state.wf(),
    ensures
        ({
            let after = state.stepped(event).0;
            ||| after.cursor == state.cursor
            ||| {
                &&& event is Confirmed
                &&& state.phase matches Phase::Relaying { index, end, stage }
                &&& stage is Confirmation
                &&& after.cursor.last_processed == Some(index)
                &&& after.cursor.next_index() == state.cursor.next_index() + 1
            }
        }),
{
}

/// Events are relayed one at a time and in rising order: the event under
/// relay after a step is the one before the step, or, once that one is
/// confirmed, its successor; and a drain begins at the first event that is
/// not relayed yet.
pub proof fn lemma_relays_in_order(state: RelayState, event: Event)
    requires
        state.wf(),
        state.stepped(event).0.phase is Relaying,
    ensures
        ({
            let after = state.stepped(event).0;
            match state.phase {
                Phase::Relaying { index, end, stage } => {
                    &&& after.phase->end == end
                    &&& {
                        ||| after.phase->index == index && after.cursor == state.cursor
                        ||| after.phase->index == index + 1 && event is Confirmed
                    }
                },
                _ => state.phase is Detecting && after.phase->index
                    == state.cursor.next_index(),
            }
        }),
{
}

/// An error ends the run for good: after it every step halts with the same
/// error and changes nothing, so no later event is attempted.
pub proof fn lemma_failure_is_final(state: RelayState, event: Event)
    requires
        state.phase is Fatal,
    ensures
        state.stepped(event) == (state, ActionView::Halt(state.phase->Fatal_0)),
{
}

/// A report of a failure, at whatever stage, ends the run and leaves the
/// cursor where the last confirmation put it.
pub proof fn lemma_failure_halts(state: RelayState, event: Event)
    requires
        event is AccountMissing || event is TransportFailure || event is TokenUnavailable
            || event is Rejected,
    ensures
        state.stepped(event).0.phase is Fatal,
        state.stepped(event).1 is Halt,
        state.stepped(event).0.cursor == state.cursor,
{
}

/// Over a whole run, whatever the driver reports and in whatever order:
/// the state stays well formed, the configuration stays what it was, the
/// cursor never moves back, and a run that has failed stays failed with
/// its cursor where it was.
pub proof fn lemma_run_never_moves_back(state: RelayState, events: Seq<Event>)
    requires
        state.wf(),
    ensures
        state.ran(events).wf(),
        state.ran(events).cursor.next_index() >= state.cursor.next_index(),
        state.ran(events).watched_account == state.watched_account,
        state.ran(events).signing_key == state.signing_key,
        state.ran(events).pda_manager == state.pda_manager,
        state.ran(events).transaction_builder == state.transaction_builder,
        state.phase is Fatal ==> state.ran(events) == state,
    decreases events.len(),
{
    if events.len() > 0 {
        let next = state.stepped(events[0]).0;
        lemma_step_keeps_well_formed(state, events[0]);
        lemma_step_keeps_configuration(state, events[0]);
        lemma_cursor_moves_on_confirmation_only(state, events[0]);
        if state.phase is Fatal {
            lemma_failure_is_final(state, events[0]);
        }
        lemma_run_never_moves_back(next, events.skip(1));
    }
}

/// The relay loop of one run, from its configuration to its fatal error.
pub struct Relayer {
    state: RelayState,
}

impl View for Relayer {
    type V = RelayState;

    closed spec fn view(&self) -> RelayState {
        self.state
    }
}

impl Relayer {
    #[verifier::type_invariant]
    spec fn well_formed(self) -> bool {
        self.state.wf()
    }

    /// What the settings and the signing key make of a relayer. The
    /// settings are understood in a fixed order, and the first one that
    /// cannot be is reported: the watched account, the signing key, the
    /// program of the source chain, the program of the destination chain,
    /// the fixed account, the sequencing account.
    pub open spec fn configured(config: RelayerConfig, key: Option<SigningKey>) -> Result<
        RelayState,
        RelayError,
    > {
        if base58_address(config.watched_account@) is None {
            Err(RelayError::Config(ConfigField::WatchedAccount))
        } else if key is None || keypair_address(key.unwrap()) is None {
            Err(RelayError::Config(ConfigField::Keypair))
        } else if base58_address(config.l1_program_id@) is None {
            Err(RelayError::Config(ConfigField::L1ProgramId))
        } else if base58_address(config.l2_program_id@) is None {
            Err(RelayError::Config(ConfigField::L2ProgramId))
        } else if base58_address(config.fixed_account@) is None {
            Err(RelayError::Config(ConfigField::FixedAccount))
        } else if base58_address(config.nonce_account@) is None {
            Err(RelayError::Config(ConfigField::NonceAccount))
        } else {
            let watched = base58_address(config.watched_account@).unwrap();
            Ok(
                RelayState::initial(
                    watched,
                    key.unwrap(),
                    PdaManager {
                        program_id: base58_address(config.l1_program_id@).unwrap(),
                        base_account: watched,
                    },
                    TransactionBuilder {
                        program_id: base58_address(config.l2_program_id@).unwrap(),
                        fixed_account: base58_address(config.fixed_account@).unwrap(),
                        nonce_account: base58_address(config.nonce_account@).unwrap(),
                    },
                ),
            )
        }
    }

    /// Sets a relayer up from its settings and from the signing key that
    /// was read for it (`None` where it could not be read). A new relayer
    /// has processed nothing: every run starts from event 0.
    pub fn new(config: &RelayerConfig, key: Option<SigningKey>) -> (r: Result<Relayer, RelayError>)
        ensures
            match r {
                Ok(relayer) => Self::configured(*config, key) == Ok::<RelayState, RelayError>(
                    relayer@,
                ),
                Err(error) => Self::configured(*config, key) == Err::<RelayState, RelayError>(
                    error,
                ),
            },
    {
        let watched_account = match parse_address(config.watched_account.as_str()) {
            Some(address) => address,
            None => {
                return Err(RelayError::Config(ConfigField::WatchedAccount));
            },
        };
        let signing_key = match key {
            Some(key) => key,
            None => {
                return Err(RelayError::Config(ConfigField::Keypair));
            },
        };
        if public_key(&signing_key).is_none() {
            return Err(RelayError::Config(ConfigField::Keypair));
        }
        let l1_program_id = match parse_address(config.l1_program_id.as_str()) {
            Some(address) => address,
            None => {
                return Err(RelayError::Config(ConfigField::L1ProgramId));
            },
        };
        let l2_program_id = match parse_address(config.l2_program_id.as_str()) {
            Some(address) => address,
            None => {
                return Err(RelayError::Config(ConfigField::L2ProgramId));
            },
        };
        let fixed_account = match parse_address(config.fixed_account.as_str()) {
            Some(address) => address,
            None => {
                return Err(RelayError::Config(ConfigField::FixedAccount));
            },
        };
        let nonce_account = match parse_address(config.nonce_account.as_str()) {
            Some(address) => address,
            None => {
                return Err(RelayError::Config(ConfigField::NonceAccount));
            },
        };
        Ok(
            Relayer {
                state: RelayState {
                    watched_account,
                    signing_key,
                    cursor: RelayCursor::new(),
                    phase: Phase::Idle,
                    pda_manager: PdaManager::new(l1_program_id, watched_account),
                    transaction_builder: TransactionBuilder::new(
                        l2_program_id,
                        fixed_account,
                        nonce_account,
                    ),
                },
            },
        )
    }

    /// Takes what the driver reports and says what it is to do next.
    pub fn step(&mut self, event: Event) -> (action: Action)
        ensures
            (final(self)@, action@) == old(self)@.stepped(event),
    {
        proof {
            use_type_invariant(&*self);
        }
        let (state, action) = self.state.step(event);
        self.state = state;
        action
    }

    /// The state of the loop.
    pub fn state(&self) -> (state: RelayState)
        ensures
            state == self@,
            state.wf(),
    {
        proof {
            use_type_invariant(self);
        }
        self.state
    }

    /// The highest event index that was confirmed, if any was.
    pub fn last_processed(&self) -> (index: Option<u64>)
        ensures
            index == self@.cursor.last_processed,
    {
        self.state.cursor.last_processed
    }

    /// The index of the first event that is not relayed yet.
    pub fn next_index(&self) -> (index: u64)
        ensures
            index == self@.cursor.next_index(),
    {
        proof {
            use_type_invariant(self);
        }
        self.state.cursor.next()
    }
}

/// A new relayer has forgotten every earlier run: it has processed nothing
/// and waits to be woken, so its first drain begins at event 0.
pub proof fn lemma_new_run_starts_from_zero(config: RelayerConfig, key: Option<SigningKey>)
    requires
        Relayer::configured(config, key) is Ok,
    ensures
        ({
            let state = Relayer::configured(config, key).unwrap();
            &&& state.wf()
            &&& state.phase is Idle
            &&& state.cursor.last_processed is None
            &&& state.cursor.next_index() == 0
        }),
{
}

} // verus!
