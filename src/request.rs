use vstd::prelude::*;
use crate::dispatch::{next_step, settled, Attempt, Step};
use crate::error::ClientError;
use crate::response::{RpcError, RpcResponse};
use crate::text::{decimal, decimal_string};

verus! {

/// The JSON-RPC protocol version a request declares.
#[derive(Debug, Clone, Copy, PartialEq, Eq, Structural)]
pub enum JsonRpcVersion {
    V1,
}

/// A set of addresses, the argument of the address-indexed queries.
#[derive(Debug, Clone)]
pub struct AddressList {
    pub addresses: Vec<String>,
}

/// One positional parameter of a request.
#[derive(Debug, Clone)]
pub enum Param {
    Text(String),
    Addresses(AddressList),
}

/// A parameter as a mathematical value.
pub enum ParamView {
    Text(Seq<char>),
    Addresses(Seq<Seq<char>>),
}

impl Param {
    pub open spec fn view(&self) -> ParamView {
        match self {
            Param::Text(s) => ParamView::Text(s@),
            Param::Addresses(a) => ParamView::Addresses(a.addresses@.map_values(|s: String| s@)),
        }
    }
}

/// A request envelope, built afresh for each exchange.
#[derive(Debug, Clone)]
pub struct RpcRequest {
    pub version: JsonRpcVersion,
    pub id: String,
    pub method: String,
    pub params: Vec<Param>,
}

/// A request as a mathematical value: id, method and parameters.
pub struct RequestView {
    pub id: Seq<char>,
    pub method: Seq<char>,
    pub params: Seq<ParamView>,
}

impl RpcRequest {
    pub open spec fn view(&self) -> RequestView {
        RequestView {
            id: self.id@,
            method: self.method@,
            params: self.params@.map_values(|p: Param| p.view()),
        }
    }

    /// A request without parameters.
    pub fn new0(version: JsonRpcVersion, id: &str, method: &str) -> (r: RpcRequest)
        ensures
            r.version == version,
            r.view() == (RequestView { id: id@, method: method@, params: Seq::empty() }),
    {
        let r = RpcRequest {
            version,
            id: String::from_str(id),
            method: String::from_str(method),
            params: Vec::new(),
        };
        assert(r.view().params == Seq::<ParamView>::empty());
        r
    }

    /// A request with one parameter.
    pub fn new1(version: JsonRpcVersion, id: &str, method: &str, param: Param) -> (r: RpcRequest)
        ensures
            r.version == version,
            r.view() == (RequestView { id: id@, method: method@, params: seq![param.view()] }),
    {
        let ghost pv = param.view();
        let mut params: Vec<Param> = Vec::new();
        params.push(param);
        let r = RpcRequest {
            version,
            id: String::from_str(id),
            method: String::from_str(method),
            params,
        };
        assert(r.view().params == seq![pv]);
        r
    }
}

/// The identifier sent with every request but the node-info query.
pub open spec fn call_id() -> Seq<char> {
    "777"@
}

/// The request for a transaction by its id.
pub fn get_transaction(tx: &str) -> (r: RpcRequest)
    ensures
        r.version == JsonRpcVersion::V1,
        r.view() == (RequestView { id: call_id(), method: "gettransaction"@, params: seq![ParamView::Text(tx@)] }),
{
    RpcRequest::new1(JsonRpcVersion::V1, "777", "gettransaction", Param::Text(String::from_str(tx)))
}

/// The request for the node's information.
pub fn get_info() -> (r: RpcRequest)
    ensures
        r.version == JsonRpcVersion::V1,
        r.view() == (RequestView { id: "curltest"@, method: "getinfo"@, params: Seq::empty() }),
{
    RpcRequest::new0(JsonRpcVersion::V1, "curltest", "getinfo")
}

/// The request for the hash of the best block.
pub fn get_best_block_hash() -> (r: RpcRequest)
    ensures
        r.version == JsonRpcVersion::V1,
        r.view() == (RequestView { id: call_id(), method: "getbestblockhash"@, params: Seq::empty() }),
{
    RpcRequest::new0(JsonRpcVersion::V1, "777", "getbestblockhash")
}

/// The request for a fresh address.
pub fn get_new_address() -> (r: RpcRequest)
    ensures
        r.version == JsonRpcVersion::V1,
        r.view() == (RequestView { id: call_id(), method: "getnewaddress"@, params: Seq::empty() }),
{
    RpcRequest::new0(JsonRpcVersion::V1, "777", "getnewaddress")
}

/// The request for the current difficulty.
pub fn get_difficulty() -> (r: RpcRequest)
    ensures
        r.version == JsonRpcVersion::V1,
        r.view() == (RequestView { id: call_id(), method: "getdifficulty"@, params: Seq::empty() }),
{
    RpcRequest::new0(JsonRpcVersion::V1, "777", "getdifficulty")
}

/// The request for the private key of an address.
pub fn dump_privkey(address: &str) -> (r: RpcRequest)
    ensures
        r.version == JsonRpcVersion::V1,
        r.view() == (RequestView { id: call_id(), method: "dumpprivkey"@, params: seq![ParamView::Text(address@)] }),
{
    RpcRequest::new1(JsonRpcVersion::V1, "777", "dumpprivkey", Param::Text(String::from_str(address)))
}

/// An address-indexed request; `method` names the query.
fn address_query(method: &str, addresses: &AddressList) -> (r: RpcRequest)
    ensures
        r.version == JsonRpcVersion::V1,
        r.view() == (RequestView {
            id: call_id(),
            method: method@,
            params: seq![Param::Addresses(*addresses).view()],
        }),
{
    let a = AddressList { addresses: clone_strings(&addresses.addresses) };
    assert(Param::Addresses(a).view() == Param::Addresses(*addresses).view());
    RpcRequest::new1(JsonRpcVersion::V1, "777", method, Param::Addresses(a))
}

fn clone_strings(v: &Vec<String>) -> (r: Vec<String>)
    ensures
        r@.map_values(|s: String| s@) == v@.map_values(|s: String| s@),
{
    let mut out: Vec<String> = Vec::new();
    let mut i: usize = 0;
    while i < v.len()
        invariant
            i <= v@.len(),
            out@.map_values(|s: String| s@) == v@.subrange(0, i as int).map_values(|s: String| s@),
        decreases v@.len() - i,
    {
        out.push(String::from_str(v[i].as_str()));
        assert(v@.subrange(0, i + 1).map_values(|s: String| s@)
            == v@.subrange(0, i as int).map_values(|s: String| s@).push(v@[i as int]@));
        i = i + 1;
    }
    assert(v@.subrange(0, v@.len() as int) == v@);
    out
}

/// The request for the balance of a set of addresses.
pub fn get_address_balance(addresses: &AddressList) -> (r: RpcRequest)
    ensures
        r.version == JsonRpcVersion::V1,
        r.view() == (RequestView { id: call_id(), method: "getaddressbalance"@, params: seq![Param::Addresses(*addresses).view()] }),
{
    address_query("getaddressbalance", addresses)
}

/// The request for the balance changes of a set of addresses.
pub fn get_address_deltas(addresses: &AddressList) -> (r: RpcRequest)
    ensures
        r.version == JsonRpcVersion::V1,
        r.view() == (RequestView { id: call_id(), method: "getaddressdeltas"@, params: seq![Param::Addresses(*addresses).view()] }),
{
    address_query("getaddressdeltas", addresses)
}

/// The request for the mempool entries of a set of addresses.
pub fn get_address_mempool(addresses: &AddressList) -> (r: RpcRequest)
    ensures
        r.version == JsonRpcVersion::V1,
        r.view() == (RequestView { id: call_id(), method: "getaddressmempool"@, params: seq![Param::Addresses(*addresses).view()] }),
{
    address_query("getaddressmempool", addresses)
}

/// The request for the transaction ids of a set of addresses.
pub fn get_address_tx_ids(addresses: &AddressList) -> (r: RpcRequest)
    ensures
        r.version == JsonRpcVersion::V1,
        r.view() == (RequestView { id: call_id(), method: "getaddresstxids"@, params: seq![Param::Addresses(*addresses).view()] }),
{
    address_query("getaddresstxids", addresses)
}

/// The request for the unspent outputs of a set of addresses.
pub fn get_address_utxos(addresses: &AddressList) -> (r: RpcRequest)
    ensures
        r.version == JsonRpcVersion::V1,
        r.view() == (RequestView { id: call_id(), method: "getaddressutxos"@, params: seq![Param::Addresses(*addresses).view()] }),
{
    address_query("getaddressutxos", addresses)
}

/// The request for a snapshot of at most `n` addresses; the daemon takes the
/// count as decimal text, not as a number.
pub fn get_snapshot_max(n: u32) -> (r: RpcRequest)
    ensures
        r.version == JsonRpcVersion::V1,
        r.view() == (RequestView { id: call_id(), method: "getsnapshot"@, params: seq![ParamView::Text(decimal(n as nat))] }),
{
    let count = decimal_string(n);
    RpcRequest::new1(JsonRpcVersion::V1, "777", "getsnapshot", Param::Text(count))
}

/// The request for a snapshot of all addresses.
pub fn get_snapshot() -> (r: RpcRequest)
    ensures
        r.version == JsonRpcVersion::V1,
        r.view() == (RequestView { id: call_id(), method: "getsnapshot"@, params: Seq::empty() }),
{
    RpcRequest::new0(JsonRpcVersion::V1, "777", "getsnapshot")
}

/// A daemon that echoes a request's parameters back as its result hands the
/// caller exactly those parameters, under the request's id, at the first
/// exchange.
pub proof fn lemma_echo_round_trip(req: RpcRequest)
    ensures
        ({
            let echo = RpcResponse::<Vec<Param>> { id: req.id, result: Some(req.params), error: None };
            &&& echo.id@ == req.view().id
            &&& echo.resolved() == Ok::<Result<Vec<Param>, RpcError>, crate::response::EnvelopeViolation>(Ok(req.params))
            &&& next_step(Attempt::First, Ok::<RpcResponse<Vec<Param>>, ClientError>(echo))
                == Step::<Vec<Param>>::Finish(Ok(Ok(req.params)))
            &&& settled(Ok::<RpcResponse<Vec<Param>>, ClientError>(echo)).unwrap().unwrap()@.map_values(|p: Param| p.view())
                == req.view().params
        }),
{
}

} // verus!
