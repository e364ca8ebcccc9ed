use vstd::prelude::*;

use crate::pubkey::Pubkey;
use crate::worker::{UpdateType, WireEncoding};

verus! {

/// Commitment level a subscription may ask of the endpoint.
#[derive(Clone, Copy, PartialEq, Eq, Structural, Debug)]
pub enum Commitment {
    Processed,
    Confirmed,
    Finalized,
}

/// A state predicate a subscription may ask the endpoint to apply.
#[derive(Clone, Debug)]
pub enum ProgramFilter {
    /// Keep only accounts of exactly this data size.
    DataSize(u64),
    /// Keep only accounts whose data holds these bytes at this offset.
    Memcmp { offset: usize, bytes: Vec<u8> },
    /// Keep only token accounts in a live state.
    TokenAccountState,
}

/// A window of the account data to return in place of the whole.
#[derive(Clone, Copy, PartialEq, Eq, Structural, Debug)]
pub struct DataSlice {
    pub offset: usize,
    pub length: usize,
}

/// Endpoint-specific options of one subscription, held as plain values.
#[derive(Clone, Debug)]
pub struct SubscribeConfig {
    pub filters: Option<Vec<ProgramFilter>>,
    pub encoding: Option<WireEncoding>,
    pub data_slice: Option<DataSlice>,
    pub commitment: Option<Commitment>,
    pub min_context_slot: Option<u64>,
    pub with_context: Option<bool>,
    pub sort_results: Option<bool>,
}

/// One registered subscription descriptor: the subscription key and its
/// optional endpoint-specific options. Immutable once registered.
#[derive(Clone, Debug)]
pub struct Filters {
    pub pubkey: Pubkey,
    pub program_subscribe_config: Option<SubscribeConfig>,
}

impl Filters {
    pub fn new(pubkey: Pubkey, program_subscribe_config: Option<SubscribeConfig>) -> (f: Filters)
        ensures
            f.pubkey == pubkey,
            f.program_subscribe_config == program_subscribe_config,
    {
        Filters { pubkey, program_subscribe_config }
    }
}

/// The streaming datasource: the endpoint address and the registry of
/// subscription descriptors it maintains over one shared connection.
#[derive(Debug)]
pub struct RpcProgramSubscribe {
    pub rpc_ws_url: String,
    pub filters: Vec<Filters>,
}

impl RpcProgramSubscribe {
    pub fn new(rpc_ws_url: String) -> (r: RpcProgramSubscribe)
        ensures
            r.rpc_ws_url == rpc_ws_url,
            r.filters@.len() == 0,
    {
        RpcProgramSubscribe { rpc_ws_url, filters: Vec::new() }
    }

    /// Adds a single filter to the datasource.
    pub fn with_filters(self, filters: Filters) -> (r: RpcProgramSubscribe)
        ensures
            r.rpc_ws_url == self.rpc_ws_url,
            r.filters@ == self.filters@.push(filters),
    {
        let mut s = self;
        s.filters.push(filters);
        s
    }

    /// Adds multiple filters to the datasource.
    pub fn with_multiple_filters(self, filters: Vec<Filters>) -> (r: RpcProgramSubscribe)
        ensures
            r.rpc_ws_url == self.rpc_ws_url,
            r.filters@ == self.filters@ + filters@,
    {
        let mut s = self;
        let mut extra = filters;
        s.filters.append(&mut extra);
        s
    }

    /// The one kind of update this datasource produces.
    pub fn update_types(&self) -> (r: Vec<UpdateType>)
        ensures
            r@ =~= seq![UpdateType::AccountUpdate],
    {
        let mut r: Vec<UpdateType> = Vec::new();
        r.push(UpdateType::AccountUpdate);
        r
    }
}

} // verus!
