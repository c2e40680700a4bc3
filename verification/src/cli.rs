//! The parsed command line: which runtime to speak to, and what to do there.

use vstd::prelude::*;
use crate::pallet::Runtime;

verus! {

/// A parsed invocation.
#[derive(Clone, Copy, Debug, PartialEq, Eq)]
pub struct Args {
    pub runtime_version: RuntimeVersion,
}

/// The runtime version to speak to, with the operation to run there.
#[derive(Clone, Copy, Debug, PartialEq, Eq)]
pub enum RuntimeVersion {
    Master { endpoint: EndPoint },
    Develop { endpoint: EndPoint },
}

/// The kind of operation: a transaction or a storage query.
#[allow(inconsistent_fields)]
#[derive(Clone, Copy, Debug, PartialEq, Eq)]
pub enum EndPoint {
    Tx { pallet: PalletCall },
    Storage { pallet: PalletStorage },
}

/// The pallet that a transaction goes to.
#[derive(Clone, Copy, Debug, PartialEq, Eq)]
pub enum PalletCall {
    Assets { call: Call },
    Sudo { call: Call },
}

/// The pallet whose storage is queried.
#[derive(Clone, Copy, Debug, PartialEq, Eq)]
pub enum PalletStorage {
    Assets { storage: AssetsStorage },
    /// The non-fungible token pallet, none of whose storage items can be
    /// queried so far.
    DeipFNFT,
}

/// The storage items of the Assets pallet that can be queried.
#[derive(Clone, Copy, Debug, PartialEq, Eq)]
pub enum AssetsStorage {
    Asset { key: u32 },
}

/// A call with its parameters.
#[derive(Clone, Copy, Debug, PartialEq, Eq)]
pub enum Call {
    Create { id: u32, admin: Account, min_balance: u128 },
    SudoUncheckedWeight { account: Account },
}

/// The signer identities that can be named on the command line.
#[derive(Clone, Copy, Debug, PartialEq, Eq)]
pub enum Account {
    Alice,
}

/// What an invocation asks the client to do.
#[derive(Clone, Copy, Debug, PartialEq, Eq)]
pub enum Command {
    /// Submit the creation of an asset, signed by its admin.
    CreateAsset { id: u32, admin: Account, min_balance: u128 },
    /// Submit a runtime upgrade wrapped in a sudo call, signed by the account.
    SudoRuntimeUpgrade { account: Account },
    /// Scan the asset map for the key.
    ScanAssets { key: u32 },
}

/// A command together with the runtime it is meant for.
#[derive(Clone, Copy, Debug, PartialEq, Eq)]
pub struct Route {
    pub runtime: Runtime,
    pub command: Command,
}

/// The command that an operation stands for on the master runtime, if there
/// is a handler for it. A call is routed only to the pallet that owns it.
pub open spec fn master_command(endpoint: EndPoint) -> Option<Command> {
    match endpoint {
        EndPoint::Tx {
            pallet: PalletCall::Assets { call: Call::Create { id, admin, min_balance } },
        } => Some(Command::CreateAsset { id, admin, min_balance }),
        EndPoint::Tx {
            pallet: PalletCall::Sudo { call: Call::SudoUncheckedWeight { account } },
        } => Some(Command::SudoRuntimeUpgrade { account }),
        EndPoint::Storage {
            pallet: PalletStorage::Assets { storage: AssetsStorage::Asset { key } },
        } => Some(Command::ScanAssets { key }),
        _ => None,
    }
}

/// The command that an operation stands for on the develop runtime, if there
/// is a handler for it. The develop runtime takes storage queries only.
pub open spec fn develop_command(endpoint: EndPoint) -> Option<Command> {
    match endpoint {
        EndPoint::Storage {
            pallet: PalletStorage::Assets { storage: AssetsStorage::Asset { key } },
        } => Some(Command::ScanAssets { key }),
        _ => None,
    }
}

/// Where an invocation is routed, if there is a handler for it.
pub open spec fn routing(args: Args) -> Option<Route> {
    match args.runtime_version {
        RuntimeVersion::Master { endpoint } => match master_command(endpoint) {
            Some(command) => Some(Route { runtime: Runtime::Master, command }),
            None => None,
        },
        RuntimeVersion::Develop { endpoint } => match develop_command(endpoint) {
            Some(command) => Some(Route { runtime: Runtime::Develop, command }),
            None => None,
        },
    }
}

fn route_storage(pallet: PalletStorage) -> (out: Option<Command>)
    ensures
        out == master_command(EndPoint::Storage { pallet }),
        out == develop_command(EndPoint::Storage { pallet }),
{
    match pallet {
        PalletStorage::Assets { storage } => match storage {
            AssetsStorage::Asset { key } => Some(Command::ScanAssets { key }),
        },
        PalletStorage::DeipFNFT => None,
    }
}

fn route_call(pallet: PalletCall) -> (out: Option<Command>)
    ensures
        out == master_command(EndPoint::Tx { pallet }),
{
    match pallet {
        PalletCall::Assets { call } => match call {
            Call::Create { id, admin, min_balance } => Some(
                Command::CreateAsset { id, admin, min_balance },
            ),
            _ => None,
        },
        PalletCall::Sudo { call } => match call {
            Call::SudoUncheckedWeight { account } => Some(Command::SudoRuntimeUpgrade { account }),
            _ => None,
        },
    }
}

/// Routes a parsed invocation to the command it stands for. An invocation
/// without a handler is routed nowhere.
pub fn route(args: &Args) -> (out: Option<Route>)
    ensures
        out == routing(*args),
{
    match args.runtime_version {
        RuntimeVersion::Master { endpoint } => {
            let command = match endpoint {
                EndPoint::Tx { pallet } => route_call(pallet),
                EndPoint::Storage { pallet } => route_storage(pallet),
            };
            match command {
                Some(command) => Some(Route { runtime: Runtime::Master, command }),
                None => None,
            }
        },
        RuntimeVersion::Develop { endpoint } => {
            let command = match endpoint {
                EndPoint::Tx { pallet: _ } => None,
                EndPoint::Storage { pallet } => route_storage(pallet),
            };
            match command {
                Some(command) => Some(Route { runtime: Runtime::Develop, command }),
                None => None,
            }
        },
    }
}

} // verus!
