//! What an operation asks its host to do once its own checks have passed:
//! a plain call to another program, or a custody hand-off between execution
//! domains with bundled call handlers. The engine only plans these; the
//! host carries them out as the last step of the same atomic unit.

use vstd::prelude::*;
use crate::encoding::Pubkey;

verus! {

/// One account a call touches, with the roles it is passed in.
#[derive(Clone, Copy, Debug, PartialEq, Eq)]
pub struct AccountMeta {
    pub pubkey: Pubkey,
    pub is_signer: bool,
    pub is_writable: bool,
}

impl AccountMeta {
    /// A writable account.
    pub fn new(pubkey: Pubkey, is_signer: bool) -> (meta: Self)
        ensures
            meta == (AccountMeta { pubkey, is_signer, is_writable: true }),
    {
        AccountMeta { pubkey, is_signer, is_writable: true }
    }

    /// A read-only account.
    pub fn new_readonly(pubkey: Pubkey, is_signer: bool) -> (meta: Self)
        ensures
            meta == (AccountMeta { pubkey, is_signer, is_writable: false }),
    {
        AccountMeta { pubkey, is_signer, is_writable: false }
    }
}

/// A call to another program.
#[derive(Clone, Debug, PartialEq, Eq)]
pub struct Instruction {
    pub program_id: Pubkey,
    pub accounts: Vec<AccountMeta>,
    pub data: Vec<u8>,
}

/// The plain value of an [`Instruction`].
pub ghost struct InstructionView {
    pub program_id: Pubkey,
    pub accounts: Seq<AccountMeta>,
    pub data: Seq<u8>,
}

impl View for Instruction {
    type V = InstructionView;

    open spec fn view(&self) -> InstructionView {
        InstructionView {
            program_id: self.program_id,
            accounts: self.accounts@,
            data: self.data@,
        }
    }
}

/// One account of a bundled call: no signer role can be asked for.
#[derive(Clone, Copy, Debug, PartialEq, Eq)]
pub struct ShortAccountMeta {
    pub pubkey: Pubkey,
    pub is_writable: bool,
}

/// Call data of a bundled call, with the index of the escrow that pays
/// for it.
#[derive(Clone, Debug, PartialEq, Eq)]
pub struct ActionArgs {
    pub escrow_index: u8,
    pub data: Vec<u8>,
}

/// The escrow index that stands for "the payer's default escrow".
pub const DEFAULT_ESCROW_INDEX: u8 = 255;

impl ActionArgs {
    /// Call data paid from the default escrow.
    pub fn new(data: Vec<u8>) -> (args: Self)
        ensures
            args.escrow_index == DEFAULT_ESCROW_INDEX,
            args.data == data,
    {
        ActionArgs { escrow_index: DEFAULT_ESCROW_INDEX, data }
    }
}

/// One sub-call bundled with a custody change.
#[derive(Clone, Debug, PartialEq, Eq)]
pub struct CallHandler {
    pub args: ActionArgs,
    pub compute_units: u32,
    pub escrow_authority: Pubkey,
    pub destination_program: Pubkey,
    pub accounts: Vec<ShortAccountMeta>,
}

/// The plain value of a [`CallHandler`].
pub ghost struct CallHandlerView {
    pub escrow_index: u8,
    pub data: Seq<u8>,
    pub compute_units: u32,
    pub escrow_authority: Pubkey,
    pub destination_program: Pubkey,
    pub accounts: Seq<ShortAccountMeta>,
}

impl View for CallHandler {
    type V = CallHandlerView;

    open spec fn view(&self) -> CallHandlerView {
        CallHandlerView {
            escrow_index: self.args.escrow_index,
            data: self.args.data@,
            compute_units: self.compute_units,
            escrow_authority: self.escrow_authority,
            destination_program: self.destination_program,
            accounts: self.accounts@,
        }
    }
}

/// The plain values of a list of call handlers.
pub open spec fn handlers_view(handlers: Seq<CallHandler>) -> Seq<CallHandlerView> {
    Seq::new(handlers.len(), |i: int| handlers[i]@)
}

/// What is snapshotted to the general domain, and what runs after it.
#[derive(Clone, Debug, PartialEq, Eq)]
pub enum CommitType {
    /// Snapshot the accounts and nothing else.
    Standalone(Vec<Pubkey>),
    /// Snapshot the accounts, then run the handlers.
    WithHandler { commited_accounts: Vec<Pubkey>, call_handlers: Vec<CallHandler> },
}

/// The plain value of a [`CommitType`].
pub ghost enum CommitTypeView {
    Standalone(Seq<Pubkey>),
    WithHandler { commited_accounts: Seq<Pubkey>, call_handlers: Seq<CallHandlerView> },
}

impl View for CommitType {
    type V = CommitTypeView;

    open spec fn view(&self) -> CommitTypeView {
        match self {
            CommitType::Standalone(accounts) => CommitTypeView::Standalone(accounts@),
            CommitType::WithHandler { commited_accounts, call_handlers } => {
                CommitTypeView::WithHandler {
                    commited_accounts: commited_accounts@,
                    call_handlers: handlers_view(call_handlers@),
                }
            },
        }
    }
}

/// What runs when custody returns to the general domain.
#[derive(Clone, Debug, PartialEq, Eq)]
pub enum UndelegateType {
    Standalone,
    WithHandler(Vec<CallHandler>),
}

/// The plain value of an [`UndelegateType`].
pub ghost enum UndelegateTypeView {
    Standalone,
    WithHandler(Seq<CallHandlerView>),
}

impl View for UndelegateType {
    type V = UndelegateTypeView;

    open spec fn view(&self) -> UndelegateTypeView {
        match self {
            UndelegateType::Standalone => UndelegateTypeView::Standalone,
            UndelegateType::WithHandler(handlers) => UndelegateTypeView::WithHandler(
                handlers_view(handlers@),
            ),
        }
    }
}

/// Snapshot, run handlers, then return exclusive custody to the general
/// domain.
#[derive(Clone, Debug, PartialEq, Eq)]
pub struct CommitAndUndelegate {
    pub commit_type: CommitType,
    pub undelegate_type: UndelegateType,
}

/// The custody change an operation ends with.
#[derive(Clone, Debug, PartialEq, Eq)]
pub enum MagicAction {
    /// Run handlers only.
    BaseActions(Vec<CallHandler>),
    /// Snapshot without giving up low-latency custody.
    Commit(CommitType),
    /// Snapshot and give custody back.
    CommitAndUndelegate(CommitAndUndelegate),
}

/// The plain value of a [`MagicAction`].
pub ghost enum MagicActionView {
    BaseActions(Seq<CallHandlerView>),
    Commit(CommitTypeView),
    CommitAndUndelegate { commit_type: CommitTypeView, undelegate_type: UndelegateTypeView },
}

impl View for MagicAction {
    type V = MagicActionView;

    open spec fn view(&self) -> MagicActionView {
        match self {
            MagicAction::BaseActions(handlers) => MagicActionView::BaseActions(
                handlers_view(handlers@),
            ),
            MagicAction::Commit(commit_type) => MagicActionView::Commit(commit_type@),
            MagicAction::CommitAndUndelegate(both) => MagicActionView::CommitAndUndelegate {
                commit_type: both.commit_type@,
                undelegate_type: both.undelegate_type@,
            },
        }
    }
}

impl MagicAction {
    /// Whether custody returns to the general domain when this action has
    /// run.
    pub open spec fn returns_custody(&self) -> bool {
        self is CommitAndUndelegate
    }
}

} // verus!
