//! The configuration of the contract.

use crate::msg::{Metadata, MetadataView};
use vstd::prelude::*;

verus! {

/// The one configuration record. Only `job_id` changes after creation.
#[derive(Debug, PartialEq, Eq)]
pub struct State {
    /// The scheduled job that runs what is dispatched.
    pub job_id: String,
    /// Who may change the configuration.
    pub owner: String,
    /// Least number of seconds between two attempts on one deposit key.
    pub retry_delay: u64,
    /// Handed on unchanged with every instruction.
    pub metadata: Metadata,
}

/// What a `State` holds, as sequences.
pub struct StateView {
    pub job_id: Seq<char>,
    pub owner: Seq<char>,
    pub retry_delay: u64,
    pub metadata: MetadataView,
}

impl View for State {
    type V = StateView;

    open spec fn view(&self) -> StateView {
        StateView {
            job_id: self.job_id@,
            owner: self.owner@,
            retry_delay: self.retry_delay,
            metadata: self.metadata@,
        }
    }
}

impl Clone for State {
    fn clone(&self) -> (copy: State)
        ensures
            copy@ == self@,
    {
        State {
            job_id: self.job_id.clone(),
            owner: self.owner.clone(),
            retry_delay: self.retry_delay,
            metadata: self.metadata.clone(),
        }
    }
}

} // verus!
