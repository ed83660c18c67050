//! What the RPC layer and its callers agree on: access levels, and the
//! parameters and results of the methods that carry plain data.

use crate::strings::string_views;
use crate::tipset_keys::TipsetKeys;
use vstd::prelude::*;

verus! {

/// Access levels, checked against the claims of a token.
#[derive(Clone, Copy, Debug, PartialEq, Eq, Hash, Structural)]
pub enum Access {
    Admin,
    Sign,
    Write,
    Read,
}

impl Access {
    /// How much a level allows: each level allows what the lower ones
    /// allow, and more.
    pub open spec fn rank(self) -> int {
        match self {
            Access::Read => 0,
            Access::Write => 1,
            Access::Sign => 2,
            Access::Admin => 3,
        }
    }

    /// The claim that grants the level.
    pub open spec fn claim(self) -> Seq<char> {
        match self {
            Access::Admin => "admin"@,
            Access::Sign => "sign"@,
            Access::Write => "write"@,
            Access::Read => "read"@,
        }
    }

    /// The claim that grants the level.
    pub fn claim_name(&self) -> (r: String)
        ensures
            r@ == self.claim(),
    {
        match self {
            Access::Admin => "admin".to_owned(),
            Access::Sign => "sign".to_owned(),
            Access::Write => "write".to_owned(),
            Access::Read => "read".to_owned(),
        }
    }
}

/// No two levels are granted by the same claim.
pub proof fn law_claims_differ(a: Access, b: Access)
    ensures
        a.claim() == b.claim() ==> a == b,
{
    reveal_strlit("admin");
    reveal_strlit("sign");
    reveal_strlit("write");
    reveal_strlit("read");
    assert("admin"@[0] != "write"@[0]);
    assert("sign"@[0] != "read"@[0]);
}

/// Checks an access level against the claims of a token: the level is
/// granted if its own claim is among them. A claim grants one level and
/// no other.
pub fn check_access(access: &Access, claims: &[String]) -> (r: bool)
    ensures
        r == string_views(claims@).contains(access.claim()),
{
    let wanted = access.claim_name();
    let mut i: usize = 0;
    while i < claims.len()
        invariant
            i <= claims.len(),
            wanted@ == access.claim(),
            forall|j: int| 0 <= j < i ==> string_views(claims@)[j] != access.claim(),
        decreases claims.len() - i,
    {
        if claims[i] == wanted {
            assert(string_views(claims@)[i as int] == access.claim());
            return true;
        }
        i += 1;
    }
    false
}

/// Seconds, as a signed count.
pub type Seconds = i64;

/// Height of a tipset in the chain.
pub type ChainEpoch = i64;

/// Parameters of `Filecoin.AuthNew`.
#[derive(Debug)]
pub struct AuthNewParams {
    /// The claims that the new token is to carry.
    pub perms: Vec<String>,
    /// How long the token is to be valid.
    pub token_exp: Seconds,
}

/// Parameters of `Filecoin.ChainExport`.
#[derive(Debug)]
pub struct ChainExportParams {
    pub epoch: ChainEpoch,
    pub recent_roots: i64,
    pub output_path: String,
    pub tipset_keys: TipsetKeys,
    pub skip_checksum: bool,
    pub dry_run: bool,
}

/// Result of `Filecoin.NetInfo`.
#[derive(Clone, Copy, Debug, Default, PartialEq, Eq, Structural)]
pub struct NetInfoResult {
    pub num_peers: usize,
    pub num_connections: u32,
    pub num_pending: u32,
    pub num_pending_incoming: u32,
    pub num_pending_outgoing: u32,
    pub num_established: u32,
}

/// What `Filecoin.GetProgress` can report on.
#[derive(Clone, Copy, Debug, PartialEq, Eq, Structural)]
pub enum GetProgressType {
    DatabaseGarbageCollection,
}

/// How far the node has followed the chain.
#[derive(Clone, Copy, Debug, Default, PartialEq, Eq, Structural)]
pub struct NodeSyncStatus {
    pub epoch: u64,
    pub behind: u64,
}

/// How many peers the node can publish to.
#[derive(Clone, Copy, Debug, Default, PartialEq, Eq, Structural)]
pub struct NodePeerStatus {
    pub peers_to_publish_msgs: u32,
    pub peers_to_publish_blocks: u32,
}

// The names of the methods of the RPC API, part by part.

// Authorization API
pub const AUTH_NEW: &'static str = "Filecoin.AuthNew";
pub const AUTH_VERIFY: &'static str = "Filecoin.AuthVerify";

// Beacon API
pub const BEACON_GET_ENTRY: &'static str = "Filecoin.BeaconGetEntry";

// Chain API
pub const CHAIN_GET_MESSAGE: &'static str = "Filecoin.ChainGetMessage";
pub const CHAIN_EXPORT: &'static str = "Filecoin.ChainExport";
pub const CHAIN_READ_OBJ: &'static str = "Filecoin.ChainReadObj";
pub const CHAIN_HAS_OBJ: &'static str = "Filecoin.ChainHasObj";
pub const CHAIN_GET_BLOCK_MESSAGES: &'static str = "Filecoin.ChainGetBlockMessages";
pub const CHAIN_GET_TIPSET_BY_HEIGHT: &'static str = "Filecoin.ChainGetTipsetByHeight";
pub const CHAIN_GET_GENESIS: &'static str = "Filecoin.ChainGetGenesis";
pub const CHAIN_HEAD: &'static str = "Filecoin.ChainHead";
pub const CHAIN_GET_BLOCK: &'static str = "Filecoin.ChainGetBlock";
pub const CHAIN_GET_TIPSET: &'static str = "Filecoin.ChainGetTipSet";
pub const CHAIN_SET_HEAD: &'static str = "Filecoin.ChainSetHead";
pub const CHAIN_GET_MIN_BASE_FEE: &'static str = "Filecoin.ChainGetMinBaseFee";

// Message Pool API
pub const MPOOL_PENDING: &'static str = "Filecoin.MpoolPending";
pub const MPOOL_PUSH: &'static str = "Filecoin.MpoolPush";
pub const MPOOL_PUSH_MESSAGE: &'static str = "Filecoin.MpoolPushMessage";

// Sync API
pub const SYNC_CHECK_BAD: &'static str = "Filecoin.SyncCheckBad";
pub const SYNC_MARK_BAD: &'static str = "Filecoin.SyncMarkBad";
pub const SYNC_STATE: &'static str = "Filecoin.SyncState";

// Wallet API
pub const WALLET_BALANCE: &'static str = "Filecoin.WalletBalance";
pub const WALLET_DEFAULT_ADDRESS: &'static str = "Filecoin.WalletDefaultAddress";
pub const WALLET_EXPORT: &'static str = "Filecoin.WalletExport";
pub const WALLET_HAS: &'static str = "Filecoin.WalletHas";
pub const WALLET_IMPORT: &'static str = "Filecoin.WalletImport";
pub const WALLET_LIST: &'static str = "Filecoin.WalletList";
pub const WALLET_NEW: &'static str = "Filecoin.WalletNew";
pub const WALLET_SET_DEFAULT: &'static str = "Filecoin.WalletSetDefault";
pub const WALLET_SIGN: &'static str = "Filecoin.WalletSign";
pub const WALLET_VERIFY: &'static str = "Filecoin.WalletVerify";
pub const WALLET_DELETE: &'static str = "Filecoin.WalletDelete";

// State API
pub const STATE_CALL: &'static str = "Filecoin.StateCall";
pub const STATE_REPLAY: &'static str = "Filecoin.StateReplay";
pub const STATE_NETWORK_NAME: &'static str = "Filecoin.StateNetworkName";
pub const STATE_NETWORK_VERSION: &'static str = "Filecoin.StateNetworkVersion";
pub const STATE_GET_ACTOR: &'static str = "Filecoin.StateGetActor";
pub const STATE_MARKET_BALANCE: &'static str = "Filecoin.StateMarketBalance";
pub const STATE_MARKET_DEALS: &'static str = "Filecoin.StateMarketDeals";
pub const STATE_GET_RECEIPT: &'static str = "Filecoin.StateGetReceipt";
pub const STATE_WAIT_MSG: &'static str = "Filecoin.StateWaitMsg";
pub const STATE_FETCH_ROOT: &'static str = "Filecoin.StateFetchRoot";

// Gas API
pub const GAS_ESTIMATE_FEE_CAP: &'static str = "Filecoin.GasEstimateFeeCap";
pub const GAS_ESTIMATE_GAS_PREMIUM: &'static str = "Filecoin.GasEstimateGasPremium";
pub const GAS_ESTIMATE_GAS_LIMIT: &'static str = "Filecoin.GasEstimateGasLimit";
pub const GAS_ESTIMATE_MESSAGE_GAS: &'static str = "Filecoin.GasEstimateMessageGas";

// Common API
pub const VERSION: &'static str = "Filecoin.Version";
pub const SHUTDOWN: &'static str = "Filecoin.Shutdown";
pub const START_TIME: &'static str = "Filecoin.StartTime";

// Net API
pub const NET_ADDRS_LISTEN: &'static str = "Filecoin.NetAddrsListen";
pub const NET_PEERS: &'static str = "Filecoin.NetPeers";
pub const NET_INFO: &'static str = "Filecoin.NetInfo";
pub const NET_CONNECT: &'static str = "Filecoin.NetConnect";
pub const NET_DISCONNECT: &'static str = "Filecoin.NetDisconnect";

// DB API
pub const DB_GC: &'static str = "Filecoin.DatabaseGarbageCollection";

// Progress API
pub const GET_PROGRESS: &'static str = "Filecoin.GetProgress";

// Node API
pub const NODE_STATUS: &'static str = "Filecoin.NodeStatus";

/// Which access level each RPC method asks for.
///
/// The map is filled once, when the node starts, and only read after.
#[derive(Debug)]
pub struct AccessMap {
    entries: Vec<(String, Access)>,
}

/// The map that a list of entries stands for: a later entry for a method
/// replaces an earlier one.
pub open spec fn entries_map(entries: Seq<(String, Access)>) -> Map<Seq<char>, Access>
    decreases entries.len(),
{
    if entries.len() == 0 {
        Map::empty()
    } else {
        entries_map(entries.drop_last()).insert(entries.last().0@, entries.last().1)
    }
}

/// A method has a level exactly if some entry names it, and then the
/// level of the last entry that does.
proof fn lemma_last_entry_decides(entries: Seq<(String, Access)>, method: Seq<char>, i: int)
    requires
        0 <= i <= entries.len(),
        forall|j: int| i <= j < entries.len() ==> (#[trigger] entries[j]).0@ != method,
    ensures
        i == 0 ==> !entries_map(entries).contains_key(method),
        i > 0 && entries[i - 1].0@ == method ==> entries_map(entries).contains_key(method)
            && entries_map(entries)[method] == entries[i - 1].1,
    decreases entries.len(),
{
    if i < entries.len() {
        lemma_last_entry_decides(entries.drop_last(), method, i);
    }
}

impl View for AccessMap {
    type V = Map<Seq<char>, Access>;

    closed spec fn view(&self) -> Map<Seq<char>, Access> {
        entries_map(self.entries@)
    }
}

impl AccessMap {
    /// The map that asks nothing of any method.
    pub fn new() -> (r: AccessMap)
        ensures
            r@ == Map::<Seq<char>, Access>::empty(),
    {
        AccessMap { entries: Vec::new() }
    }

    /// Sets the level that `method` asks for, in place of any level set
    /// for it before.
    pub fn insert(&mut self, method: &str, access: Access)
        ensures
            final(self)@ == old(self)@.insert(method@, access),
    {
        self.entries.push((method.to_owned(), access));
        assert(self.entries@.drop_last() == old(self).entries@);
    }

    /// The level that `method` asks for, if one was set.
    pub fn get(&self, method: &str) -> (r: Option<Access>)
        ensures
            r is Some <==> self@.contains_key(method@),
            r matches Some(access) ==> access == self@[method@],
    {
        let wanted = method.to_owned();
        let mut i: usize = self.entries.len();
        while i > 0
            invariant
                i <= self.entries.len(),
                wanted@ == method@,
                forall|j: int| i <= j < self.entries@.len() ==> (#[trigger] self.entries@[j]).0@
                    != method@,
            decreases i,
        {
            if self.entries[i - 1].0 == wanted {
                proof {
                    lemma_last_entry_decides(self.entries@, method@, i as int);
                }
                return Some(self.entries[i - 1].1);
            }
            i -= 1;
        }
        proof {
            lemma_last_entry_decides(self.entries@, method@, 0);
        }
        None
    }
}

/// The level that each method of the RPC API asks for.
pub open spec fn access_table() -> Map<Seq<char>, Access> {
    Map::<Seq<char>, Access>::empty()
        .insert(AUTH_NEW@, Access::Admin)
        .insert(AUTH_VERIFY@, Access::Read)
        .insert(BEACON_GET_ENTRY@, Access::Read)
        .insert(CHAIN_GET_MESSAGE@, Access::Read)
        .insert(CHAIN_EXPORT@, Access::Read)
        .insert(CHAIN_READ_OBJ@, Access::Read)
        .insert(CHAIN_HAS_OBJ@, Access::Read)
        .insert(CHAIN_GET_BLOCK_MESSAGES@, Access::Read)
        .insert(CHAIN_GET_TIPSET_BY_HEIGHT@, Access::Read)
        .insert(CHAIN_GET_GENESIS@, Access::Read)
        .insert(CHAIN_HEAD@, Access::Read)
        .insert(CHAIN_GET_BLOCK@, Access::Read)
        .insert(CHAIN_GET_TIPSET@, Access::Read)
        .insert(CHAIN_SET_HEAD@, Access::Admin)
        .insert(CHAIN_GET_MIN_BASE_FEE@, Access::Admin)
        .insert(MPOOL_PENDING@, Access::Read)
        .insert(MPOOL_PUSH@, Access::Write)
        .insert(MPOOL_PUSH_MESSAGE@, Access::Sign)
        .insert(SYNC_CHECK_BAD@, Access::Read)
        .insert(SYNC_MARK_BAD@, Access::Admin)
        .insert(SYNC_STATE@, Access::Read)
        .insert(WALLET_BALANCE@, Access::Write)
        .insert(WALLET_BALANCE@, Access::Read)
        .insert(WALLET_DEFAULT_ADDRESS@, Access::Read)
        .insert(WALLET_EXPORT@, Access::Admin)
        .insert(WALLET_HAS@, Access::Write)
        .insert(WALLET_IMPORT@, Access::Admin)
        .insert(WALLET_LIST@, Access::Write)
        .insert(WALLET_NEW@, Access::Write)
        .insert(WALLET_SET_DEFAULT@, Access::Write)
        .insert(WALLET_SIGN@, Access::Sign)
        .insert(WALLET_VERIFY@, Access::Read)
        .insert(WALLET_DELETE@, Access::Write)
        .insert(STATE_CALL@, Access::Read)
        .insert(STATE_REPLAY@, Access::Read)
        .insert(STATE_GET_ACTOR@, Access::Read)
        .insert(STATE_MARKET_BALANCE@, Access::Read)
        .insert(STATE_MARKET_DEALS@, Access::Read)
        .insert(STATE_GET_RECEIPT@, Access::Read)
        .insert(STATE_WAIT_MSG@, Access::Read)
        .insert(STATE_NETWORK_NAME@, Access::Read)
        .insert(STATE_NETWORK_VERSION@, Access::Read)
        .insert(STATE_FETCH_ROOT@, Access::Read)
        .insert(GAS_ESTIMATE_GAS_LIMIT@, Access::Read)
        .insert(GAS_ESTIMATE_GAS_PREMIUM@, Access::Read)
        .insert(GAS_ESTIMATE_FEE_CAP@, Access::Read)
        .insert(GAS_ESTIMATE_MESSAGE_GAS@, Access::Read)
        .insert(VERSION@, Access::Read)
        .insert(SHUTDOWN@, Access::Admin)
        .insert(START_TIME@, Access::Read)
        .insert(NET_ADDRS_LISTEN@, Access::Read)
        .insert(NET_PEERS@, Access::Read)
        .insert(NET_INFO@, Access::Read)
        .insert(NET_CONNECT@, Access::Write)
        .insert(NET_DISCONNECT@, Access::Write)
        .insert(DB_GC@, Access::Write)
        .insert(GET_PROGRESS@, Access::Read)
        .insert(NODE_STATUS@, Access::Read)
}

/// Builds the map of the levels that the methods of the RPC API ask for.
pub fn access_map() -> (r: AccessMap)
    ensures
        r@ == access_table(),
{
    let mut access = AccessMap::new();
    access.insert(AUTH_NEW, Access::Admin);
    access.insert(AUTH_VERIFY, Access::Read);
    access.insert(BEACON_GET_ENTRY, Access::Read);
    access.insert(CHAIN_GET_MESSAGE, Access::Read);
    access.insert(CHAIN_EXPORT, Access::Read);
    access.insert(CHAIN_READ_OBJ, Access::Read);
    access.insert(CHAIN_HAS_OBJ, Access::Read);
    access.insert(CHAIN_GET_BLOCK_MESSAGES, Access::Read);
    access.insert(CHAIN_GET_TIPSET_BY_HEIGHT, Access::Read);
    access.insert(CHAIN_GET_GENESIS, Access::Read);
    access.insert(CHAIN_HEAD, Access::Read);
    access.insert(CHAIN_GET_BLOCK, Access::Read);
    access.insert(CHAIN_GET_TIPSET, Access::Read);
    access.insert(CHAIN_SET_HEAD, Access::Admin);
    access.insert(CHAIN_GET_MIN_BASE_FEE, Access::Admin);
    access.insert(MPOOL_PENDING, Access::Read);
    access.insert(MPOOL_PUSH, Access::Write);
    access.insert(MPOOL_PUSH_MESSAGE, Access::Sign);
    access.insert(SYNC_CHECK_BAD, Access::Read);
    access.insert(SYNC_MARK_BAD, Access::Admin);
    access.insert(SYNC_STATE, Access::Read);
    access.insert(WALLET_BALANCE, Access::Write);
    access.insert(WALLET_BALANCE, Access::Read);
    access.insert(WALLET_DEFAULT_ADDRESS, Access::Read);
    access.insert(WALLET_EXPORT, Access::Admin);
    access.insert(WALLET_HAS, Access::Write);
    access.insert(WALLET_IMPORT, Access::Admin);
    access.insert(WALLET_LIST, Access::Write);
    access.insert(WALLET_NEW, Access::Write);
    access.insert(WALLET_SET_DEFAULT, Access::Write);
    access.insert(WALLET_SIGN, Access::Sign);
    access.insert(WALLET_VERIFY, Access::Read);
    access.insert(WALLET_DELETE, Access::Write);
    access.insert(STATE_CALL, Access::Read);
    access.insert(STATE_REPLAY, Access::Read);
    access.insert(STATE_GET_ACTOR, Access::Read);
    access.insert(STATE_MARKET_BALANCE, Access::Read);
    access.insert(STATE_MARKET_DEALS, Access::Read);
    access.insert(STATE_GET_RECEIPT, Access::Read);
    access.insert(STATE_WAIT_MSG, Access::Read);
    access.insert(STATE_NETWORK_NAME, Access::Read);
    access.insert(STATE_NETWORK_VERSION, Access::Read);
    access.insert(STATE_FETCH_ROOT, Access::Read);
    access.insert(GAS_ESTIMATE_GAS_LIMIT, Access::Read);
    access.insert(GAS_ESTIMATE_GAS_PREMIUM, Access::Read);
    access.insert(GAS_ESTIMATE_FEE_CAP, Access::Read);
    access.insert(GAS_ESTIMATE_MESSAGE_GAS, Access::Read);
    access.insert(VERSION, Access::Read);
    access.insert(SHUTDOWN, Access::Admin);
    access.insert(START_TIME, Access::Read);
    access.insert(NET_ADDRS_LISTEN, Access::Read);
    access.insert(NET_PEERS, Access::Read);
    access.insert(NET_INFO, Access::Read);
    access.insert(NET_CONNECT, Access::Write);
    access.insert(NET_DISCONNECT, Access::Write);
    access.insert(DB_GC, Access::Write);
    access.insert(GET_PROGRESS, Access::Read);
    access.insert(NODE_STATUS, Access::Read);
    access
}

} // verus!
