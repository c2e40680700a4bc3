//! Dispatch errors and their resolution to a root cause.
//!
//! A failed extrinsic reports a `DispatchError`. Most of its variants are
//! leaves; a `Module` error only names a pallet by its index and an error of
//! that pallet by its code, and has to be decoded against the registry of the
//! runtime that produced it.

use vstd::prelude::*;
use vstd::string::*;
use crate::pallet::{Pallet, PalletRegistry};
use crate::text::{decimal, render_u64};

verus! {

/// Why a token operation failed.
#[derive(Clone, Copy, Debug, PartialEq, Eq, Structural)]
pub enum TokenError {
    NoFunds,
    WouldDie,
    BelowMinimum,
    CannotCreate,
    UnknownAsset,
    Frozen,
    Unsupported,
}

impl TokenError {
    /// The reason's name as the chain spells it.
    pub open spec fn name_of(self) -> Seq<char> {
        match self {
            TokenError::NoFunds => "NoFunds"@,
            TokenError::WouldDie => "WouldDie"@,
            TokenError::BelowMinimum => "BelowMinimum"@,
            TokenError::CannotCreate => "CannotCreate"@,
            TokenError::UnknownAsset => "UnknownAsset"@,
            TokenError::Frozen => "Frozen"@,
            TokenError::Unsupported => "Unsupported"@,
        }
    }

    /// The reason's name as the chain spells it.
    pub fn name(self) -> (s: &'static str)
        ensures
            s@ == self.name_of(),
    {
        match self {
            TokenError::NoFunds => "NoFunds",
            TokenError::WouldDie => "WouldDie",
            TokenError::BelowMinimum => "BelowMinimum",
            TokenError::CannotCreate => "CannotCreate",
            TokenError::UnknownAsset => "UnknownAsset",
            TokenError::Frozen => "Frozen",
            TokenError::Unsupported => "Unsupported",
        }
    }
}

/// Why an arithmetic operation failed.
#[derive(Clone, Copy, Debug, PartialEq, Eq, Structural)]
pub enum ArithmeticError {
    Underflow,
    Overflow,
    DivisionByZero,
}

/// The reason a dispatched call failed, as the runtime reports it.
#[derive(Clone, Copy, Debug, PartialEq, Eq, Structural)]
pub enum DispatchError {
    Other,
    CannotLookup,
    BadOrigin,
    Module { pallet_index: u8, error_code: u8 },
    ConsumerRemaining,
    NoProviders,
    Token(TokenError),
    Arithmetic(ArithmeticError),
}

impl DispatchError {
    /// The name of the error's kind as the chain spells it.
    pub open spec fn name_of(self) -> Seq<char> {
        match self {
            DispatchError::Other => "Other"@,
            DispatchError::CannotLookup => "CannotLookup"@,
            DispatchError::BadOrigin => "BadOrigin"@,
            DispatchError::Module { .. } => "Module"@,
            DispatchError::ConsumerRemaining => "ConsumerRemaining"@,
            DispatchError::NoProviders => "NoProviders"@,
            DispatchError::Token(_) => "Token"@,
            DispatchError::Arithmetic(_) => "Arithmetic"@,
        }
    }

    /// The name of the error's kind as the chain spells it.
    pub fn name(self) -> (s: &'static str)
        ensures
            s@ == self.name_of(),
    {
        match self {
            DispatchError::Other => "Other",
            DispatchError::CannotLookup => "CannotLookup",
            DispatchError::BadOrigin => "BadOrigin",
            DispatchError::Module { .. } => "Module",
            DispatchError::ConsumerRemaining => "ConsumerRemaining",
            DispatchError::NoProviders => "NoProviders",
            DispatchError::Token(_) => "Token",
            DispatchError::Arithmetic(_) => "Arithmetic",
        }
    }
}

/// The errors of the System pallet, in the order of their codes.
#[derive(Clone, Copy, Debug, PartialEq, Eq, Structural)]
pub enum SystemError {
    InvalidSpecName,
    SpecVersionNeedsToIncrease,
    FailedToExtractRuntimeVersion,
    NonDefaultComposite,
    NonZeroRefCount,
    CallFiltered,
}

/// Index of the System pallet, the only one whose error codes are decoded.
pub const SYSTEM_PALLET_INDEX: u8 = 0;

impl SystemError {
    /// The error that a code stands for, if it stands for one.
    pub open spec fn of_code(code: u8) -> Option<SystemError> {
        if code == 0 {
            Some(SystemError::InvalidSpecName)
        } else if code == 1 {
            Some(SystemError::SpecVersionNeedsToIncrease)
        } else if code == 2 {
            Some(SystemError::FailedToExtractRuntimeVersion)
        } else if code == 3 {
            Some(SystemError::NonDefaultComposite)
        } else if code == 4 {
            Some(SystemError::NonZeroRefCount)
        } else if code == 5 {
            Some(SystemError::CallFiltered)
        } else {
            None
        }
    }

    /// The code that the chain sends for the error.
    pub open spec fn code_of(self) -> u8 {
        match self {
            SystemError::InvalidSpecName => 0,
            SystemError::SpecVersionNeedsToIncrease => 1,
            SystemError::FailedToExtractRuntimeVersion => 2,
            SystemError::NonDefaultComposite => 3,
            SystemError::NonZeroRefCount => 4,
            SystemError::CallFiltered => 5,
        }
    }

    /// The error's name as the chain spells it.
    pub open spec fn name_of(self) -> Seq<char> {
        match self {
            SystemError::InvalidSpecName => "InvalidSpecName"@,
            SystemError::SpecVersionNeedsToIncrease => "SpecVersionNeedsToIncrease"@,
            SystemError::FailedToExtractRuntimeVersion => "FailedToExtractRuntimeVersion"@,
            SystemError::NonDefaultComposite => "NonDefaultComposite"@,
            SystemError::NonZeroRefCount => "NonZeroRefCount"@,
            SystemError::CallFiltered => "CallFiltered"@,
        }
    }

    /// Decodes the single byte that the chain sends for an error of the
    /// System pallet.
    pub fn from_code(code: u8) -> (out: Option<SystemError>)
        ensures
            out == SystemError::of_code(code),
    {
        match code {
            0 => Some(SystemError::InvalidSpecName),
            1 => Some(SystemError::SpecVersionNeedsToIncrease),
            2 => Some(SystemError::FailedToExtractRuntimeVersion),
            3 => Some(SystemError::NonDefaultComposite),
            4 => Some(SystemError::NonZeroRefCount),
            5 => Some(SystemError::CallFiltered),
            _ => None,
        }
    }

    /// The code that the chain sends for the error.
    pub fn code(self) -> (code: u8)
        ensures
            code == self.code_of(),
    {
        match self {
            SystemError::InvalidSpecName => 0,
            SystemError::SpecVersionNeedsToIncrease => 1,
            SystemError::FailedToExtractRuntimeVersion => 2,
            SystemError::NonDefaultComposite => 3,
            SystemError::NonZeroRefCount => 4,
            SystemError::CallFiltered => 5,
        }
    }

    /// The error's name as the chain spells it.
    pub fn name(self) -> (s: &'static str)
        ensures
            s@ == self.name_of(),
    {
        match self {
            SystemError::InvalidSpecName => "InvalidSpecName",
            SystemError::SpecVersionNeedsToIncrease => "SpecVersionNeedsToIncrease",
            SystemError::FailedToExtractRuntimeVersion => "FailedToExtractRuntimeVersion",
            SystemError::NonDefaultComposite => "NonDefaultComposite",
            SystemError::NonZeroRefCount => "NonZeroRefCount",
            SystemError::CallFiltered => "CallFiltered",
        }
    }
}

/// Decoding and encoding of System error codes are inverse to each other.
pub proof fn lemma_system_error_code_roundtrip(error: SystemError, code: u8)
    ensures
        SystemError::of_code(error.code_of()) == Some(error),
        SystemError::of_code(code) matches Some(e) ==> e.code_of() == code,
        SystemError::of_code(code) is Some <==> code <= 5,
{
}

/// The root cause of a failed dispatch, ready to be shown.
#[derive(Clone, Debug, PartialEq, Eq)]
pub enum Failure {
    /// An error of a pallet, with the pallet's name from the registry.
    Module { pallet: String, error: SystemError },
    /// A token error, which is a leaf and needs no decoding.
    Token(TokenError),
}

/// Why an event or a dispatch error could not be interpreted.
#[derive(Clone, Copy, Debug, PartialEq, Eq, Structural)]
pub enum InterpretError {
    /// A module error names a pallet index that the registry does not hold:
    /// the registry does not belong to the chain that sent the error.
    UnknownPallet { index: u8 },
    /// The registry holds the pallet, but this client has no decoder for its
    /// error codes.
    UndecodablePallet { index: u8 },
    /// The error code is none of the pallet's errors.
    InvalidErrorCode { index: u8, code: u8 },
    /// A well-formed dispatch error of a kind that has no rendering yet.
    UnsupportedError(DispatchError),
    /// A well-formed event of a kind that has no handler yet.
    UnsupportedEvent { pallet: Pallet },
    /// An event of a pallet that the runtime does not have.
    ForeignEvent { pallet: Pallet },
}

impl InterpretError {
    /// Whether the rejection only says that a handler is missing. The data
    /// was well-formed then, and a caller may choose to go on; every other
    /// rejection means that the data does not fit the runtime, and is fatal.
    pub open spec fn is_unsupported_of(self) -> bool {
        match self {
            InterpretError::UndecodablePallet { .. } => true,
            InterpretError::UnsupportedError(_) => true,
            InterpretError::UnsupportedEvent { .. } => true,
            InterpretError::UnknownPallet { .. } => false,
            InterpretError::InvalidErrorCode { .. } => false,
            InterpretError::ForeignEvent { .. } => false,
        }
    }

    /// Whether the rejection only says that a handler is missing.
    pub fn is_unsupported(&self) -> (b: bool)
        ensures
            b == self.is_unsupported_of(),
    {
        match self {
            InterpretError::UndecodablePallet { .. } => true,
            InterpretError::UnsupportedError(_) => true,
            InterpretError::UnsupportedEvent { .. } => true,
            InterpretError::UnknownPallet { .. } => false,
            InterpretError::InvalidErrorCode { .. } => false,
            InterpretError::ForeignEvent { .. } => false,
        }
    }

    /// The diagnostic that names what was rejected.
    pub open spec fn description_of(self) -> Seq<char> {
        match self {
            InterpretError::UnknownPallet { index } => "Unknown index: "@ + decimal(index as nat),
            InterpretError::UndecodablePallet { index } => "No error decoder for pallet index: "@
                + decimal(index as nat),
            InterpretError::InvalidErrorCode { index, code } => "Invalid error code "@ + decimal(
                code as nat,
            ) + " of pallet index: "@ + decimal(index as nat),
            InterpretError::UnsupportedError(error) => "Unsupported dispatch error: "@
                + error.name_of(),
            InterpretError::UnsupportedEvent { pallet } => "Unsupported event of pallet: "@
                + pallet.name_of(),
            InterpretError::ForeignEvent { pallet } => "Event of a pallet that the runtime lacks: "@
                + pallet.name_of(),
        }
    }

    /// Renders the diagnostic that names what was rejected.
    pub fn description(&self) -> (s: String)
        ensures
            s@ == self.description_of(),
    {
        match self {
            InterpretError::UnknownPallet { index } => {
                let mut s = String::from_str("Unknown index: ");
                let number = render_u64(*index as u64);
                s.append(number.as_str());
                s
            },
            InterpretError::UndecodablePallet { index } => {
                let mut s = String::from_str("No error decoder for pallet index: ");
                let number = render_u64(*index as u64);
                s.append(number.as_str());
                s
            },
            InterpretError::InvalidErrorCode { index, code } => {
                let mut s = String::from_str("Invalid error code ");
                let number = render_u64(*code as u64);
                s.append(number.as_str());
                s.append(" of pallet index: ");
                let number = render_u64(*index as u64);
                s.append(number.as_str());
                s
            },
            InterpretError::UnsupportedError(error) => {
                let mut s = String::from_str("Unsupported dispatch error: ");
                s.append(error.name());
                s
            },
            InterpretError::UnsupportedEvent { pallet } => {
                let mut s = String::from_str("Unsupported event of pallet: ");
                s.append(pallet.name());
                s
            },
            InterpretError::ForeignEvent { pallet } => {
                let mut s = String::from_str("Event of a pallet that the runtime lacks: ");
                s.append(pallet.name());
                s
            },
        }
    }
}

impl Failure {
    /// The line that shows the failure.
    pub open spec fn line_of(self) -> Seq<char> {
        match self {
            Failure::Module { pallet, error } => pallet@ + "::Err::"@ + error.name_of(),
            Failure::Token(reason) => "System::Failed::Token::"@ + reason.name_of(),
        }
    }

    /// Renders the failure as one line of text.
    pub fn line(&self) -> (s: String)
        ensures
            s@ == self.line_of(),
    {
        match self {
            Failure::Module { pallet, error } => {
                let mut s = pallet.clone();
                s.append("::Err::");
                s.append(error.name());
                s
            },
            Failure::Token(reason) => {
                let mut s = String::from_str("System::Failed::Token::");
                s.append(reason.name());
                s
            },
        }
    }
}

/// The root cause that a module error resolves to under a registry.
pub open spec fn module_resolution(
    pallet_index: u8,
    error_code: u8,
    registry: Seq<String>,
) -> Result<Failure, InterpretError> {
    if pallet_index >= registry.len() {
        Err(InterpretError::UnknownPallet { index: pallet_index })
    } else if pallet_index != SYSTEM_PALLET_INDEX {
        Err(InterpretError::UndecodablePallet { index: pallet_index })
    } else {
        match SystemError::of_code(error_code) {
            Some(error) => Ok(Failure::Module { pallet: registry[pallet_index as int], error }),
            None => Err(InterpretError::InvalidErrorCode { index: pallet_index, code: error_code }),
        }
    }
}

/// The root cause that a dispatch error resolves to under a registry.
pub open spec fn resolution(error: DispatchError, registry: Seq<String>) -> Result<
    Failure,
    InterpretError,
> {
    match error {
        DispatchError::Module { pallet_index, error_code } => module_resolution(
            pallet_index,
            error_code,
            registry,
        ),
        DispatchError::Token(reason) => Ok(Failure::Token(reason)),
        _ => Err(InterpretError::UnsupportedError(error)),
    }
}

/// Decodes a module error: looks the pallet up in the registry and decodes
/// the error code as an error of that pallet.
pub fn resolve_module_error(
    pallet_index: u8,
    error_code: u8,
    registry: &PalletRegistry,
) -> (out: Result<Failure, InterpretError>)
    ensures
        out == module_resolution(pallet_index, error_code, registry@),
{
    match registry.name(pallet_index) {
        None => Err(InterpretError::UnknownPallet { index: pallet_index }),
        Some(name) => {
            if pallet_index != SYSTEM_PALLET_INDEX {
                Err(InterpretError::UndecodablePallet { index: pallet_index })
            } else {
                match SystemError::from_code(error_code) {
                    Some(error) => Ok(Failure::Module { pallet: name.clone(), error }),
                    None => Err(
                        InterpretError::InvalidErrorCode { index: pallet_index, code: error_code },
                    ),
                }
            }
        },
    }
}

/// Resolves a dispatch error to its root cause.
pub fn resolve_dispatch_error(error: DispatchError, registry: &PalletRegistry) -> (out: Result<
    Failure,
    InterpretError,
>)
    ensures
        out == resolution(error, registry@),
{
    match error {
        DispatchError::Module { pallet_index, error_code } => resolve_module_error(
            pallet_index,
            error_code,
            registry,
        ),
        DispatchError::Token(reason) => Ok(Failure::Token(reason)),
        _ => Err(InterpretError::UnsupportedError(error)),
    }
}

/// A module error of the System pallet whose code is one of the pallet's
/// errors resolves, under every registry that holds the System pallet, to
/// the error of that code under the registry's name for the pallet. Its line
/// is that name, `::Err::` and the exact name of the error.
pub proof fn lemma_system_error_resolves(error_code: u8, registry: Seq<String>)
    requires
        SystemError::of_code(error_code) is Some,
        registry.len() > 0,
    ensures
        ({
            let error = SystemError::of_code(error_code)->Some_0;
            let failure = Failure::Module { pallet: registry[0], error };
            &&& error.code_of() == error_code
            &&& resolution(
                DispatchError::Module { pallet_index: SYSTEM_PALLET_INDEX, error_code },
                registry,
            ) == Ok::<Failure, InterpretError>(failure)
            &&& failure.line_of() == registry[0]@ + "::Err::"@ + error.name_of()
        }),
{
}

/// A module error whose pallet index the registry does not hold never
/// resolves: it is reported as an unknown pallet, whatever its error code.
pub proof fn lemma_unknown_pallet_is_rejected(
    pallet_index: u8,
    error_code: u8,
    registry: Seq<String>,
)
    requires
        pallet_index >= registry.len(),
    ensures
        resolution(DispatchError::Module { pallet_index, error_code }, registry) == Err::<
            Failure,
            InterpretError,
        >(InterpretError::UnknownPallet { index: pallet_index }),
{
}

} // verus!
