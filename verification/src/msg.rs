//! The messages that come in and the instruction that goes out.

use crate::ledger::DepositKey;
use crate::uint256::Uint256;
use vstd::prelude::*;

verus! {

/// What a new contract is created with.
#[derive(Clone, Debug, PartialEq)]
pub struct InstantiateMsg {
    /// Least number of seconds between two attempts on one deposit key.
    pub retry_delay: u64,
    /// The scheduled job that runs what is dispatched.
    pub job_id: String,
    pub creator: String,
    pub signers: Vec<String>,
}

/// The operations of the contract.
#[derive(Clone, Debug, PartialEq)]
pub enum ExecuteMsg {
    PutSwap { deposits: Vec<Deposit> },
    SetPaloma {  },
    UpdateCompass { new_compass: String },
    UpdateRefundWallet { new_refund_wallet: String },
    UpdateFee { fee: Uint256 },
    UpdateJobId { new_job_id: String },
}

/// A pending deposit, as a request names it.
#[derive(Clone, Copy, Debug, PartialEq)]
pub struct Deposit {
    pub deposit_id: u32,
    pub remaining_count: u32,
    pub amount_out_min: Uint256,
}

impl Deposit {
    /// The key under which the ledger knows this deposit.
    pub open spec fn key(self) -> DepositKey {
        (self.deposit_id, self.remaining_count)
    }
}

/// Data handed on unchanged with every instruction.
#[derive(Debug, PartialEq, Eq)]
pub struct Metadata {
    pub creator: String,
    pub signers: Vec<String>,
}

/// What a `Metadata` holds, as sequences.
pub struct MetadataView {
    pub creator: Seq<char>,
    pub signers: Seq<Seq<char>>,
}

impl View for Metadata {
    type V = MetadataView;

    open spec fn view(&self) -> MetadataView {
        MetadataView { creator: self.creator@, signers: self.signers.deep_view() }
    }
}

impl Clone for Metadata {
    fn clone(&self) -> (copy: Metadata)
        ensures
            copy@ == self@,
    {
        let signers = self.signers.clone();
        assert(signers.deep_view() =~= self.signers.deep_view());
        Metadata { creator: self.creator.clone(), signers }
    }
}

/// One instruction for the remote chain.
#[derive(Clone, Debug, PartialEq)]
pub struct PalomaMsg {
    /// The scheduled job to run.
    pub job_id: String,
    /// The call, encoded for the target chain.
    pub payload: Vec<u8>,
    pub metadata: Metadata,
}

/// What a `PalomaMsg` holds, as sequences.
pub struct PalomaMsgView {
    pub job_id: Seq<char>,
    pub payload: Seq<u8>,
    pub metadata: MetadataView,
}

impl View for PalomaMsg {
    type V = PalomaMsgView;

    open spec fn view(&self) -> PalomaMsgView {
        PalomaMsgView { job_id: self.job_id@, payload: self.payload@, metadata: self.metadata@ }
    }
}

/// The read-only requests.
#[derive(Clone, Debug, PartialEq)]
pub enum QueryMsg {
    GetJobId {  },
}

/// The answer to `QueryMsg::GetJobId`.
#[derive(Clone, Debug, PartialEq)]
pub struct GetJobIdResponse {
    pub job_id: String,
}

} // verus!
