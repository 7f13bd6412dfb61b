use vstd::prelude::*;

verus! {

/// The number of blocks in the best chain.
#[derive(Debug, Clone, Copy, PartialEq, Eq, Structural)]
pub struct Blockcount(pub u32);

#[derive(Debug, Clone)]
pub struct Consensus {
    pub chaintip: String,
    pub nextblock: String,
}

#[derive(Debug, Clone)]
pub struct Upgrade {
    pub name: String,
    pub activationheight: u32,
    pub status: String,
    pub info: String,
}

#[derive(Debug, Clone, Copy, PartialEq, Eq, Structural)]
pub struct Enforce {
    pub status: bool,
    pub found: u32,
    pub required: u32,
    pub window: u32,
}

#[derive(Debug, Clone, Copy, PartialEq, Eq, Structural)]
pub struct Reject {
    pub status: bool,
    pub found: u32,
    pub required: u32,
    pub window: u32,
}

#[derive(Debug, Clone)]
pub struct Softfork {
    pub id: String,
    pub version: u32,
    pub enforce: Enforce,
    pub reject: Reject,
}

#[derive(Debug, Clone, Copy, PartialEq, Eq, Structural)]
pub enum ChainTipStatus {
    Invalid,
    HeadersOnly,
    ValidHeaders,
    ValidFork,
    Active,
}

#[derive(Debug, Clone)]
pub struct ChainTip {
    pub height: u64,
    pub hash: String,
    pub branchlen: u32,
    pub status: ChainTipStatus,
}

#[derive(Debug, Clone)]
pub struct ChainTips(pub Vec<ChainTip>);

#[derive(Debug, Clone, Copy, PartialEq, Eq, Structural)]
pub struct MempoolInfo {
    pub size: u32,
    pub bytes: u32,
    pub usage: u32,
}

#[derive(Debug, Clone)]
pub struct RawMempool(pub Vec<String>);

#[derive(Debug, Clone)]
pub struct ScriptPubKey {
    pub assembly: String,
    pub hex: String,
    pub req_sigs: u32,
    pub script_type: String,
    pub addresses: Vec<String>,
}

#[derive(Debug, Clone)]
pub struct MinerID {
    pub notaryid: Option<u8>,
    pub kmd_address: Option<String>,
    pub pubkey: String,
    pub blocks: u32,
}

#[derive(Debug, Clone)]
pub struct MinerIDs {
    pub mined: Vec<MinerID>,
    pub numnotaries: u8,
}

#[derive(Debug, Clone)]
pub struct Notary {
    pub pubkey: String,
    pub btc_address: String,
    pub kmd_address: String,
}

#[derive(Debug, Clone)]
pub struct Notaries {
    pub notaries: Vec<Notary>,
    pub numnotaries: u8,
    pub height: u32,
    pub timestamp: u64,
}

} // verus!
