//! The messages that clients and provers exchange.
use vstd::prelude::*;

verus! {

/// A client's need.
#[derive(Debug, PartialEq, Eq)]
pub enum NeedKind {
    /// An umbrella for the various proving needs.
    Prove(u32),
}

/// An input of a proving job.
#[derive(Debug, Clone, PartialEq, Eq)]
pub struct InputToken {
    /// The input's hash.
    pub hash: u128,
    /// The input's owner, as bytes.
    pub owner: Vec<u8>,
}

/// The kinds of computing job.
#[derive(Debug, Clone, PartialEq, Eq)]
pub enum JobKind {
    /// An SP1 job.
    SP1(SP1Op),
}

/// The SP1 operations.
#[derive(Debug, Clone, PartialEq, Eq)]
pub enum SP1Op {
    /// A proving operation.
    Prove(ProveDetails),
}

/// The details of a proving operation.
#[derive(Debug, Clone, PartialEq, Eq)]
pub struct ProveDetails {
    /// The operation's identifier.
    pub id: u128,
    /// Which ELF the operation runs.
    pub elf_kind: ELFKind,
    /// The operation's inputs.
    pub tokens: Vec<InputToken>,
}

/// The kinds of ELF.
#[derive(Debug, Clone, PartialEq, Eq)]
pub enum ELFKind {
    /// The subblock ELF.
    Subblock,
    /// The aggregation ELF.
    Agg,
}

/// A compute job, used by clients when gossiping about their compute needs.
#[derive(Debug, PartialEq, Eq)]
pub struct ComputeJob {
    /// Network-wide identifier of the job.
    pub id: u128,
    /// The job's kind.
    pub kind: JobKind,
}

/// The kinds of proof; the number is a batch identifier.
#[derive(Debug, Clone, PartialEq, Eq)]
pub enum ProofKind {
    /// A subblock proof.
    Subblock(u128),
    /// An aggregation proof.
    Agg(u128),
}

/// A proof in the custody of the prover.  Proofs are large, so the prover
/// holds them until the client requests their transfer.
#[derive(Debug, Clone, PartialEq, Eq)]
pub struct ProofToken {
    /// The job's identifier.
    pub job_id: u128,
    /// The proof's kind.
    pub kind: ProofKind,
    /// Hash of the proof blob.
    pub hash: u128,
}

/// Requests, to which clients respond.
#[derive(Debug, PartialEq, Eq)]
pub enum Request {
    /// "I would".
    Would,
    /// A proof is ready.
    ProofIsReady(ProofToken),
}

/// The responses of clients to requests.
#[derive(Debug, PartialEq, Eq)]
pub enum Response {
    /// A compute job.
    Job(ComputeJob),
}

} // verus!
