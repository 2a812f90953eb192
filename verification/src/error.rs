//! The ways in which publishing a contract can fail.

use vstd::prelude::*;

verus! {

/// Why a publish attempt stopped. Every failure is final for the attempt.
#[derive(Debug, Clone, Copy, PartialEq, Eq, Structural)]
pub enum PublishError {
    /// The contract document has no string under `MissionId`.
    MissingMissionId,
    /// The contract document has no string under `MissionName`.
    MissingMissionName,
    /// The contract document has no string under `ExitId`.
    MissingExitId,
    /// The target list of the contract document is no array, or one of its
    /// entries has no string under `RepositoryId`.
    InvalidTargets,
    /// The creation parameters of the contract document cannot take the
    /// contract's ids: they, or their `creationData`, are neither an object
    /// nor absent.
    InvalidCreationParams,
    /// A text that should hold a JSON document holds none.
    MalformedJson,
    /// The answer to the session request has no string under
    /// `ContractSessionId`.
    MissingSessionId,
    /// The answer to the session request does not list its game changers as
    /// an array of strings.
    InvalidGameChangers,
    /// The contract creation page lacks the contract's id or its public id.
    InvalidContractPage,
}

} // verus!
