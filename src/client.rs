//! The client side of the module: its local funds, the state machine that
//! follows one transaction attempt, and the command line surface.
use vstd::prelude::*;
use crate::common::{NostimintInput, NostimintOutput};
use crate::config::NostimintClientConfig;
use crate::server::TransactionItemAmount;
use crate::types::{Amount, OperationId, OutPoint, TransactionId};

verus! {

/// Namespaces the keys of the client's table.
#[derive(Clone, Copy, Debug, PartialEq, Eq, Structural, Hash)]
pub enum DbKeyPrefix {
    ClientFunds,
}

impl DbKeyPrefix {
    pub fn byte(&self) -> (r: u8)
        ensures
            r == 0x04,
    {
        0x04
    }
}

/// Key of the single row that holds the client's funds.
#[derive(Clone, Copy, Debug, PartialEq, Eq, Structural, Hash)]
pub struct NostimintClientFundsKeyV0;

/// The client's database: the funds it has observed, if any row is written.
#[derive(Clone, Copy, Debug, PartialEq, Eq, Structural, Hash)]
pub struct ClientDb {
    pub funds: Option<Amount>,
}

impl ClientDb {
    pub fn new() -> (r: ClientDb)
        ensures
            r.funds is None,
    {
        ClientDb { funds: None }
    }

    pub open spec fn spec_funds(self) -> u64 {
        match self.funds {
            Some(a) => a.msats,
            None => 0,
        }
    }

    /// The client's funds: zero until a row is written.
    pub fn get_funds(&self) -> (r: Amount)
        ensures
            r.msats == self.spec_funds(),
    {
        match self.funds {
            Some(a) => a,
            None => Amount::zero(),
        }
    }

    /// Adds `amount` to the client's funds; the sum must fit in an amount.
    pub fn add_funds(&mut self, amount: Amount)
        requires
            old(self).spec_funds() + amount.msats <= u64::MAX,
        ensures
            final(self).funds is Some,
            final(self).spec_funds() == old(self).spec_funds() + amount.msats,
    {
        let funds = self.get_funds();
        self.funds = Some(Amount { msats: funds.msats + amount.msats });
    }
}

/// The client module failed to learn an output's outcome.
#[derive(Clone, Copy, Debug, PartialEq, Eq, Structural, Hash)]
pub enum NostimintError {
    NostimintInternalError,
}

impl NostimintError {
    pub fn message(&self) -> (r: &'static str)
        ensures
            r@ == "Nostimint module had an internal error"@,
    {
        "Nostimint module had an internal error"
    }
}

/// What a state waits for before it moves on.
#[derive(Clone, Copy, Debug, PartialEq, Eq, Hash)]
pub enum Awaited {
    /// The host accepting or rejecting the transaction.
    TxAccepted(OperationId, TransactionId),
    /// The federation's outcome of an output.
    OutputOutcome(OutPoint),
}

/// Follows one transaction attempt.
#[derive(Clone, Copy, Debug, PartialEq, Eq, Hash)]
pub enum NostimintStateMachine {
    /// An input waits for its transaction to be accepted.
    Input(Amount, TransactionId, OperationId),
    /// An output waits for its outcome.
    Output(Amount, TransactionId, OperationId),
    InputDone(OperationId),
    OutputDone(Amount, OperationId),
    Refund(OperationId),
}

impl NostimintStateMachine {
    pub open spec fn spec_operation_id(self) -> OperationId {
        match self {
            NostimintStateMachine::Input(_, _, id) => id,
            NostimintStateMachine::Output(_, _, id) => id,
            NostimintStateMachine::InputDone(id) => id,
            NostimintStateMachine::OutputDone(_, id) => id,
            NostimintStateMachine::Refund(id) => id,
        }
    }

    /// The amount that a pending state may add to the client's funds.
    pub open spec fn spec_amount(self) -> u64 {
        match self {
            NostimintStateMachine::Input(a, _, _) => a.msats,
            NostimintStateMachine::Output(a, _, _) => a.msats,
            _ => 0,
        }
    }

    pub open spec fn is_terminal(self) -> bool {
        !(self is Input || self is Output)
    }

    /// The operation that the state belongs to.
    pub fn operation_id(&self) -> (r: OperationId)
        ensures
            r == self.spec_operation_id(),
    {
        match self {
            NostimintStateMachine::Input(_, _, id) => *id,
            NostimintStateMachine::Output(_, _, id) => *id,
            NostimintStateMachine::InputDone(id) => *id,
            NostimintStateMachine::OutputDone(_, id) => *id,
            NostimintStateMachine::Refund(id) => *id,
        }
    }

    /// What the state waits for; terminal states wait for nothing.
    pub fn awaits(&self) -> (r: Option<Awaited>)
        ensures
            r is None <==> self.is_terminal(),
            *self matches NostimintStateMachine::Input(_, txid, id) ==> r == Some(
                Awaited::TxAccepted(id, txid),
            ),
            *self matches NostimintStateMachine::Output(_, txid, _) ==> r == Some(
                Awaited::OutputOutcome(OutPoint { txid, out_idx: 0 }),
            ),
    {
        match self {
            NostimintStateMachine::Input(_, txid, id) => Some(Awaited::TxAccepted(*id, *txid)),
            NostimintStateMachine::Output(_, txid, _) => Some(
                Awaited::OutputOutcome(OutPoint { txid: *txid, out_idx: 0 }),
            ),
            _ => None,
        }
    }

    /// The next state once what the state waits for has happened: `accepted`
    /// tells whether the transaction (for an input) or the output was
    /// accepted. A rejected input refunds its amount to the client; an
    /// accepted output credits it; the new funds must fit in an amount.
    /// Terminal states have no next state.
    pub fn transition(&self, accepted: bool, db: &mut ClientDb) -> (r: Option<NostimintStateMachine>)
        requires
            old(db).spec_funds() + self.spec_amount() <= u64::MAX,
        ensures
            r is None <==> self.is_terminal(),
            r is None ==> *final(db) == *old(db),
            r matches Some(next) ==> next.spec_operation_id() == self.spec_operation_id(),
            match *self {
                NostimintStateMachine::Input(amount, _, id) => if accepted {
                    r == Some(NostimintStateMachine::InputDone(id)) && *final(db) == *old(db)
                } else {
                    r == Some(NostimintStateMachine::Refund(id)) && final(db).spec_funds() == old(
                        db,
                    ).spec_funds() + amount.msats
                },
                NostimintStateMachine::Output(amount, _, id) => if accepted {
                    r == Some(NostimintStateMachine::OutputDone(amount, id))
                        && final(db).spec_funds() == old(db).spec_funds() + amount.msats
                } else {
                    r == Some(NostimintStateMachine::Refund(id)) && *final(db) == *old(db)
                },
                _ => true,
            },
    {
        match *self {
            NostimintStateMachine::Input(amount, _, id) => {
                if accepted {
                    Some(NostimintStateMachine::InputDone(id))
                } else {
                    db.add_funds(amount);
                    Some(NostimintStateMachine::Refund(id))
                }
            },
            NostimintStateMachine::Output(amount, _, id) => {
                if accepted {
                    db.add_funds(amount);
                    Some(NostimintStateMachine::OutputDone(amount, id))
                } else {
                    Some(NostimintStateMachine::Refund(id))
                }
            },
            _ => None,
        }
    }
}

/// The client module of one federation.
pub struct NostimintClientModule {
    pub cfg: NostimintClientConfig,
}

impl NostimintClientModule {
    pub fn new(cfg: NostimintClientConfig) -> (r: NostimintClientModule)
        ensures
            r.cfg == cfg,
    {
        NostimintClientModule { cfg }
    }

    pub fn input_amount(&self, input: &NostimintInput) -> (r: TransactionItemAmount)
        ensures
            r.amount == input.amount,
            r.fee == self.cfg.tx_fee,
    {
        TransactionItemAmount { amount: input.amount, fee: self.cfg.tx_fee }
    }

    pub fn output_amount(&self, output: &NostimintOutput) -> (r: TransactionItemAmount)
        ensures
            r.amount == output.amount,
            r.fee == self.cfg.tx_fee,
    {
        TransactionItemAmount { amount: output.amount, fee: self.cfg.tx_fee }
    }

    /// The federation's public key, as the client configuration gives it.
    pub fn fed_public_key(&self) -> (r: [u8; 48])
        ensures
            r@ == self.cfg.fed_public_key@,
    {
        self.cfg.fed_public_key
    }

    /// This module cannot be a client's primary module.
    pub fn supports_being_primary(&self) -> (r: bool)
        ensures
            !r,
    {
        false
    }
}

/// Generates the client module.
#[derive(Clone, Copy, Debug)]
pub struct NostimintClientGen;

impl NostimintClientGen {
    /// The module API versions the client speaks, as (major, minor).
    pub fn supported_api_versions(&self) -> (r: Vec<(u32, u32)>)
        ensures
            r@ == seq![(0u32, 0u32)],
    {
        let mut v: Vec<(u32, u32)> = Vec::new();
        v.push((0, 0));
        assert(v@ =~= seq![(0u32, 0u32)]);
        v
    }

    pub fn init(&self, cfg: NostimintClientConfig) -> (r: NostimintClientModule)
        ensures
            r.cfg == cfg,
    {
        NostimintClientModule::new(cfg)
    }
}

/// A command of the module's command line.
#[derive(Clone, Debug, PartialEq, Eq, Hash)]
pub enum CliCommand {
    /// Ask the federation to sign a note with this message.
    SignNote(String),
}

/// Why a command line was refused.
#[derive(Clone, Debug, PartialEq, Eq, Hash)]
pub enum CliError {
    /// No command was given.
    MissingCommand,
    /// `sign-note` takes exactly one argument.
    WrongArgumentCount,
    /// The command is not known.
    UnknownCommand(String),
}

impl CliError {
    pub fn message(&self) -> (r: &'static str)
        ensures
            *self matches CliError::UnknownCommand(_) ==> r@
                == "Unknown command, supported commands: sign-note"@,
    {
        match self {
            CliError::MissingCommand => "Expected to be called with at least 1 arguments: <command> …",
            CliError::WrongArgumentCount => "`sign-note` command expects 1 argument: <message of kind1 note>",
            CliError::UnknownCommand(_) => "Unknown command, supported commands: sign-note",
        }
    }
}

/// Reads the module's command line: `sign-note <message>`.
pub fn handle_cli_command(args: &Vec<String>) -> (r: Result<CliCommand, CliError>)
    ensures
        args@.len() == 0 ==> r == Err::<CliCommand, CliError>(CliError::MissingCommand),
        args@.len() > 0 && args@[0]@ == "sign-note"@ && args@.len() != 2 ==> r == Err::<
            CliCommand,
            CliError,
        >(CliError::WrongArgumentCount),
        args@.len() == 2 && args@[0]@ == "sign-note"@ ==> (r matches Ok(CliCommand::SignNote(m))
            && m@ == args@[1]@),
        args@.len() > 0 && args@[0]@ != "sign-note"@ ==> (r matches Err(CliError::UnknownCommand(c))
            && c@ == args@[0]@),
{
    if args.len() == 0 {
        return Err(CliError::MissingCommand);
    }
    let sign_note = String::from_str("sign-note");
    if args[0] == sign_note {
        if args.len() != 2 {
            return Err(CliError::WrongArgumentCount);
        }
        Ok(CliCommand::SignNote(args[1].clone()))
    } else {
        Err(CliError::UnknownCommand(args[0].clone()))
    }
}

} // verus!
