//! Pallets: the subsystems of the chain that events and errors come from.

use vstd::prelude::*;

verus! {

/// The pallets that emit events on either runtime.
#[derive(Clone, Copy, Debug, PartialEq, Eq, Structural)]
pub enum Pallet {
    System,
    Balances,
    OctopusAppchain,
    OctopusLpos,
    OctopusUpwardMessages,
    Session,
    Grandpa,
    Sudo,
    ImOnline,
    Assets,
    Uniques,
    Multisig,
    Utility,
    Deip,
    DeipProposal,
    DeipDao,
    DeipVesting,
    DeipInvestmentOpportunity,
    DeipFNFT,
}

impl Pallet {
    /// The pallet's name as the chain spells it.
    pub open spec fn name_of(self) -> Seq<char> {
        match self {
            Pallet::System => "System"@,
            Pallet::Balances => "Balances"@,
            Pallet::OctopusAppchain => "OctopusAppchain"@,
            Pallet::OctopusLpos => "OctopusLpos"@,
            Pallet::OctopusUpwardMessages => "OctopusUpwardMessages"@,
            Pallet::Session => "Session"@,
            Pallet::Grandpa => "Grandpa"@,
            Pallet::Sudo => "Sudo"@,
            Pallet::ImOnline => "ImOnline"@,
            Pallet::Assets => "Assets"@,
            Pallet::Uniques => "Uniques"@,
            Pallet::Multisig => "Multisig"@,
            Pallet::Utility => "Utility"@,
            Pallet::Deip => "Deip"@,
            Pallet::DeipProposal => "DeipProposal"@,
            Pallet::DeipDao => "DeipDao"@,
            Pallet::DeipVesting => "DeipVesting"@,
            Pallet::DeipInvestmentOpportunity => "DeipInvestmentOpportunity"@,
            Pallet::DeipFNFT => "DeipFNFT"@,
        }
    }

    /// The pallet's name as the chain spells it.
    pub fn name(self) -> (s: &'static str)
        ensures
            s@ == self.name_of(),
    {
        match self {
            Pallet::System => "System",
            Pallet::Balances => "Balances",
            Pallet::OctopusAppchain => "OctopusAppchain",
            Pallet::OctopusLpos => "OctopusLpos",
            Pallet::OctopusUpwardMessages => "OctopusUpwardMessages",
            Pallet::Session => "Session",
            Pallet::Grandpa => "Grandpa",
            Pallet::Sudo => "Sudo",
            Pallet::ImOnline => "ImOnline",
            Pallet::Assets => "Assets",
            Pallet::Uniques => "Uniques",
            Pallet::Multisig => "Multisig",
            Pallet::Utility => "Utility",
            Pallet::Deip => "Deip",
            Pallet::DeipProposal => "DeipProposal",
            Pallet::DeipDao => "DeipDao",
            Pallet::DeipVesting => "DeipVesting",
            Pallet::DeipInvestmentOpportunity => "DeipInvestmentOpportunity",
            Pallet::DeipFNFT => "DeipFNFT",
        }
    }
}

/// The two runtime versions that the client speaks to.
#[derive(Clone, Copy, Debug, PartialEq, Eq, Structural)]
pub enum Runtime {
    Master,
    Develop,
}

impl Runtime {
    /// Whether the runtime has the pallet at all. The non-fungible token
    /// pallet exists on the develop runtime only.
    pub open spec fn has_pallet(self, pallet: Pallet) -> bool {
        pallet != Pallet::DeipFNFT || self == Runtime::Develop
    }

    /// Whether the runtime has the pallet at all.
    pub fn supports(self, pallet: Pallet) -> (b: bool)
        ensures
            b == self.has_pallet(pallet),
    {
        match pallet {
            Pallet::DeipFNFT => match self {
                Runtime::Develop => true,
                Runtime::Master => false,
            },
            _ => true,
        }
    }
}

/// The names of a runtime's pallets, in the order of their indices: the name
/// at position `i` is that of the pallet with index `i`.
#[derive(Clone, Debug, PartialEq, Eq)]
pub struct PalletRegistry {
    pub names: Vec<String>,
}

impl View for PalletRegistry {
    type V = Seq<String>;

    open spec fn view(&self) -> Seq<String> {
        self.names@
    }
}

impl PalletRegistry {
    /// A registry of the given names, indexed by position.
    pub fn new(names: Vec<String>) -> (registry: PalletRegistry)
        ensures
            registry@ == names@,
    {
        PalletRegistry { names }
    }

    /// The number of pallets in the registry.
    pub fn len(&self) -> (n: usize)
        ensures
            n == self@.len(),
    {
        self.names.len()
    }

    /// Whether the registry knows a pallet of that index.
    pub fn contains(&self, index: u8) -> (b: bool)
        ensures
            b == (index < self@.len()),
    {
        (index as usize) < self.names.len()
    }

    /// The name of the pallet with that index, if the registry knows one.
    pub fn name(&self, index: u8) -> (name: Option<&String>)
        ensures
            name == (if index < self@.len() {
                Some(&self@[index as int])
            } else {
                None
            }),
    {
        if (index as usize) < self.names.len() {
            Some(&self.names[index as usize])
        } else {
            None
        }
    }
}

} // verus!
