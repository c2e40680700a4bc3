//! Chain events as the interpreter reads them, and the records it emits.
//!
//! An event keeps what the interpreter decides on. The payload of an event
//! that is only shown, never examined, is held as the text that shows it.

use vstd::prelude::*;
use vstd::string::*;
use crate::dispatch::{DispatchError, Failure};
use crate::pallet::Pallet;
use crate::text::{decimal, render_u64};

verus! {

/// The class of a dispatched call.
#[derive(Clone, Copy, Debug, PartialEq, Eq, Structural)]
pub enum DispatchClass {
    Normal,
    Operational,
    Mandatory,
}

impl DispatchClass {
    /// The class's name as the chain spells it.
    pub open spec fn name_of(self) -> Seq<char> {
        match self {
            DispatchClass::Normal => "Normal"@,
            DispatchClass::Operational => "Operational"@,
            DispatchClass::Mandatory => "Mandatory"@,
        }
    }

    /// The class's name as the chain spells it.
    pub fn name(self) -> (s: &'static str)
        ensures
            s@ == self.name_of(),
    {
        match self {
            DispatchClass::Normal => "Normal",
            DispatchClass::Operational => "Operational",
            DispatchClass::Mandatory => "Mandatory",
        }
    }
}

/// Whether a dispatched call pays a fee.
#[derive(Clone, Copy, Debug, PartialEq, Eq, Structural)]
pub enum Pays {
    Yes,
    No,
}

impl Pays {
    /// The value's name as the chain spells it.
    pub open spec fn name_of(self) -> Seq<char> {
        match self {
            Pays::Yes => "Yes"@,
            Pays::No => "No"@,
        }
    }

    /// The value's name as the chain spells it.
    pub fn name(self) -> (s: &'static str)
        ensures
            s@ == self.name_of(),
    {
        match self {
            Pays::Yes => "Yes",
            Pays::No => "No",
        }
    }
}

/// What the runtime reports of every dispatched call.
#[derive(Clone, Copy, Debug, PartialEq, Eq, Structural)]
pub struct DispatchInfo {
    pub weight: u64,
    pub class: DispatchClass,
    pub pays_fee: Pays,
}

impl DispatchInfo {
    /// The text that shows the dispatch info.
    pub open spec fn rendering_of(self) -> Seq<char> {
        "DispatchInfo { weight: "@ + decimal(self.weight as nat) + ", class: "@
            + self.class.name_of() + ", pays_fee: "@ + self.pays_fee.name_of() + " }"@
    }

    /// Renders the dispatch info as text.
    pub fn rendering(&self) -> (s: String)
        ensures
            s@ == self.rendering_of(),
    {
        let mut s = String::from_str("DispatchInfo { weight: ");
        let weight = render_u64(self.weight);
        s.append(weight.as_str());
        s.append(", class: ");
        s.append(self.class.name());
        s.append(", pays_fee: ");
        s.append(self.pays_fee.name());
        s.append(" }");
        s
    }
}

/// An event of the System pallet.
#[derive(Clone, Debug, PartialEq, Eq)]
pub enum SystemEvent {
    /// An extrinsic was dispatched with success.
    ExtrinsicSuccess(DispatchInfo),
    /// An extrinsic failed.
    ExtrinsicFailed(DispatchError, DispatchInfo),
    /// The runtime code was replaced.
    CodeUpdated,
    /// An account was created; the text shows the event.
    NewAccount(String),
    /// An account was reaped.
    KilledAccount,
    /// A remark was made on chain.
    Remarked,
}

/// An event of the Sudo pallet.
#[derive(Clone, Copy, Debug, PartialEq, Eq)]
pub enum SudoEvent {
    /// A call was dispatched with root origin, with this outcome.
    Sudid { sudo_result: Result<(), DispatchError> },
    /// The sudo key changed hands.
    KeyChanged,
    /// A call was dispatched on behalf of another account.
    SudoAsDone,
}

/// An event of a finalized block, tagged by the pallet that emitted it.
#[derive(Clone, Debug, PartialEq, Eq)]
pub enum ChainEvent {
    System(SystemEvent),
    /// An event of the Balances pallet; the text shows it.
    Balances(String),
    OctopusAppchain,
    OctopusLpos,
    OctopusUpwardMessages,
    Session,
    Grandpa,
    Sudo(SudoEvent),
    ImOnline,
    /// An event of the Assets pallet; the text shows it.
    Assets(String),
    /// An event of the Uniques pallet; the text shows it.
    Uniques(String),
    Multisig,
    Utility,
    Deip,
    DeipProposal,
    DeipDao,
    DeipVesting,
    DeipInvestmentOpportunity,
    DeipFNFT,
}

impl ChainEvent {
    /// The pallet that emitted the event.
    pub open spec fn pallet_of(self) -> Pallet {
        match self {
            ChainEvent::System(_) => Pallet::System,
            ChainEvent::Balances(_) => Pallet::Balances,
            ChainEvent::OctopusAppchain => Pallet::OctopusAppchain,
            ChainEvent::OctopusLpos => Pallet::OctopusLpos,
            ChainEvent::OctopusUpwardMessages => Pallet::OctopusUpwardMessages,
            ChainEvent::Session => Pallet::Session,
            ChainEvent::Grandpa => Pallet::Grandpa,
            ChainEvent::Sudo(_) => Pallet::Sudo,
            ChainEvent::ImOnline => Pallet::ImOnline,
            ChainEvent::Assets(_) => Pallet::Assets,
            ChainEvent::Uniques(_) => Pallet::Uniques,
            ChainEvent::Multisig => Pallet::Multisig,
            ChainEvent::Utility => Pallet::Utility,
            ChainEvent::Deip => Pallet::Deip,
            ChainEvent::DeipProposal => Pallet::DeipProposal,
            ChainEvent::DeipDao => Pallet::DeipDao,
            ChainEvent::DeipVesting => Pallet::DeipVesting,
            ChainEvent::DeipInvestmentOpportunity => Pallet::DeipInvestmentOpportunity,
            ChainEvent::DeipFNFT => Pallet::DeipFNFT,
        }
    }

    /// The pallet that emitted the event.
    pub fn pallet(&self) -> (pallet: Pallet)
        ensures
            pallet == self.pallet_of(),
    {
        match self {
            ChainEvent::System(_) => Pallet::System,
            ChainEvent::Balances(_) => Pallet::Balances,
            ChainEvent::OctopusAppchain => Pallet::OctopusAppchain,
            ChainEvent::OctopusLpos => Pallet::OctopusLpos,
            ChainEvent::OctopusUpwardMessages => Pallet::OctopusUpwardMessages,
            ChainEvent::Session => Pallet::Session,
            ChainEvent::Grandpa => Pallet::Grandpa,
            ChainEvent::Sudo(_) => Pallet::Sudo,
            ChainEvent::ImOnline => Pallet::ImOnline,
            ChainEvent::Assets(_) => Pallet::Assets,
            ChainEvent::Uniques(_) => Pallet::Uniques,
            ChainEvent::Multisig => Pallet::Multisig,
            ChainEvent::Utility => Pallet::Utility,
            ChainEvent::Deip => Pallet::Deip,
            ChainEvent::DeipProposal => Pallet::DeipProposal,
            ChainEvent::DeipDao => Pallet::DeipDao,
            ChainEvent::DeipVesting => Pallet::DeipVesting,
            ChainEvent::DeipInvestmentOpportunity => Pallet::DeipInvestmentOpportunity,
            ChainEvent::DeipFNFT => Pallet::DeipFNFT,
        }
    }
}

/// One diagnostic record, the interpretation of one event.
#[derive(Clone, Debug, PartialEq, Eq)]
pub enum Record {
    /// An extrinsic succeeded, with this dispatch info.
    Success(DispatchInfo),
    /// A dispatch failed, for this root cause.
    Failure(Failure),
    /// The runtime code was updated.
    CodeUpdated,
    /// An event of the System pallet that is shown as it is.
    System(String),
    /// An event of another pallet that is shown under the pallet's name.
    Rendered { pallet: Pallet, rendering: String },
}

impl Record {
    /// The line that shows the record.
    pub open spec fn line_of(self) -> Seq<char> {
        match self {
            Record::Success(info) => "Success::"@ + info.rendering_of(),
            Record::Failure(failure) => failure.line_of(),
            Record::CodeUpdated => "CodeUpdated"@,
            Record::System(rendering) => rendering@,
            Record::Rendered { pallet, rendering } => pallet.name_of() + "::"@ + rendering@,
        }
    }

    /// Renders the record as one line of text.
    pub fn line(&self) -> (s: String)
        ensures
            s@ == self.line_of(),
    {
        match self {
            Record::Success(info) => {
                let mut s = String::from_str("Success::");
                let rendering = info.rendering();
                s.append(rendering.as_str());
                s
            },
            Record::Failure(failure) => failure.line(),
            Record::CodeUpdated => String::from_str("CodeUpdated"),
            Record::System(rendering) => rendering.clone(),
            Record::Rendered { pallet, rendering } => {
                let mut s = String::from_str(pallet.name());
                s.append("::");
                s.append(rendering.as_str());
                s
            },
        }
    }
}

} // verus!
