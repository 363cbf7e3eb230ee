use vstd::prelude::*;
use vstd::string::*;

use crate::models::BlockRequest;

verus! {

/// A positional parameter of a JSON-RPC call, as the node receives it.
pub enum RpcParam {
    /// A JSON string.
    Text(String),
    /// A JSON non-negative integer.
    Count(u64),
    /// A JSON array of strings.
    TextList(Vec<String>),
    /// A JSON array of transaction inputs `{"txid": .., "vout": ..}`, each
    /// member holding the JSON value whose text the input keeps.
    Inputs(Vec<TxInput>),
}

/// One input of a transaction to build: the `txid` and `vout` members of an
/// unspent output as the node reported them, each kept as the JSON text of
/// its value (`null` where the member is absent), whatever that value is.
pub struct TxInput {
    pub txid: String,
    pub vout: String,
}

/// The mathematical value of a [`TxInput`].
pub struct TxInputView {
    pub txid: Seq<char>,
    pub vout: Seq<char>,
}

impl View for TxInput {
    type V = TxInputView;

    open spec fn view(&self) -> TxInputView {
        TxInputView { txid: self.txid@, vout: self.vout@ }
    }
}

/// The mathematical value of an [`RpcParam`].
pub enum RpcParamView {
    Text(Seq<char>),
    Count(u64),
    TextList(Seq<Seq<char>>),
    Inputs(Seq<TxInputView>),
}

impl View for RpcParam {
    type V = RpcParamView;

    open spec fn view(&self) -> RpcParamView {
        match self {
            RpcParam::Text(s) => RpcParamView::Text(s@),
            RpcParam::Count(n) => RpcParamView::Count(*n),
            RpcParam::TextList(v) => RpcParamView::TextList(v@.map_values(|s: String| s@)),
            RpcParam::Inputs(v) => RpcParamView::Inputs(v@.map_values(|i: TxInput| i@)),
        }
    }
}

/// A JSON-RPC 1.0 call: `{"jsonrpc": "1.0", "id": id, "method": method, "params": params}`.
pub struct RpcRequest {
    pub id: String,
    pub method: String,
    pub params: Vec<RpcParam>,
}

/// The mathematical value of an [`RpcRequest`].
pub struct RpcRequestView {
    pub id: Seq<char>,
    pub method: Seq<char>,
    pub params: Seq<RpcParamView>,
}

impl View for RpcRequest {
    type V = RpcRequestView;

    open spec fn view(&self) -> RpcRequestView {
        RpcRequestView {
            id: self.id@,
            method: self.method@,
            params: self.params@.map_values(|p: RpcParam| p@),
        }
    }
}

/// The call with the given id, method and parameters.
pub open spec fn call(id: Seq<char>, method: Seq<char>, params: Seq<RpcParamView>) -> RpcRequestView {
    RpcRequestView { id, method, params }
}

/// The id that the single-purpose calls of the service carry.
pub open spec fn default_id() -> Seq<char> {
    "postman"@
}

/// The id that the calls of a transfer carry.
pub open spec fn transfer_id() -> Seq<char> {
    "curltext"@
}

/// The protocol version written into every call.
pub fn jsonrpc_version() -> (r: &'static str)
    ensures
        r@ == "1.0"@,
{
    "1.0"
}

fn make_call(id: &str, method: &str, params: Vec<RpcParam>) -> (r: RpcRequest)
    ensures
        r@ == call(id@, method@, params@.map_values(|p: RpcParam| p@)),
{
    RpcRequest { id: String::from_str(id), method: String::from_str(method), params }
}

fn text_param(s: &str) -> (r: RpcParam)
    ensures
        r@ == RpcParamView::Text(s@),
{
    RpcParam::Text(String::from_str(s))
}

/// `getblockhash` for the requested block height.
pub fn block_hash_request(block: &BlockRequest) -> (r: RpcRequest)
    ensures
        r@ == call(default_id(), "getblockhash"@, seq![RpcParamView::Count(block.block_number)]),
{
    let mut params = Vec::new();
    params.push(RpcParam::Count(block.block_number));
    let r = make_call("postman", "getblockhash", params);
    assert(r@.params =~= seq![RpcParamView::Count(block.block_number)]);
    r
}

/// `gettransaction` for a transaction id.
pub fn transaction_request(txid: &str) -> (r: RpcRequest)
    ensures
        r@ == call(default_id(), "gettransaction"@, seq![RpcParamView::Text(txid@)]),
{
    let mut params = Vec::new();
    params.push(text_param(txid));
    let r = make_call("postman", "gettransaction", params);
    assert(r@.params =~= seq![RpcParamView::Text(txid@)]);
    r
}

/// `getblockchaininfo`, without parameters.
pub fn blockchain_info_request() -> (r: RpcRequest)
    ensures
        r@ == call(default_id(), "getblockchaininfo"@, seq![]),
{
    let r = make_call("postman", "getblockchaininfo", Vec::new());
    assert(r@.params =~= seq![]);
    r
}

/// `getnetworkinfo`, without parameters.
pub fn network_info_request() -> (r: RpcRequest)
    ensures
        r@ == call(default_id(), "getnetworkinfo"@, seq![]),
{
    let r = make_call("postman", "getnetworkinfo", Vec::new());
    assert(r@.params =~= seq![]);
    r
}

/// `getnewaddress` with a label.
pub fn labelled_address_request(label: &str) -> (r: RpcRequest)
    ensures
        r@ == call(default_id(), "getnewaddress"@, seq![RpcParamView::Text(label@)]),
{
    let mut params = Vec::new();
    params.push(text_param(label));
    let r = make_call("postman", "getnewaddress", params);
    assert(r@.params =~= seq![RpcParamView::Text(label@)]);
    r
}

/// `getnewaddress`, without parameters.
pub fn new_address_request() -> (r: RpcRequest)
    ensures
        r@ == call(default_id(), "getnewaddress"@, seq![]),
{
    let r = make_call("postman", "getnewaddress", Vec::new());
    assert(r@.params =~= seq![]);
    r
}

/// `generatetoaddress`: mine `num_blocks` blocks paying `address`.
pub fn generate_to_address_request(id: &str, num_blocks: u64, address: &str) -> (r: RpcRequest)
    ensures
        r@ == call(id@, "generatetoaddress"@, seq![RpcParamView::Count(num_blocks), RpcParamView::Text(address@)]),
{
    let mut params = Vec::new();
    params.push(RpcParam::Count(num_blocks));
    params.push(text_param(address));
    let r = make_call(id, "generatetoaddress", params);
    assert(r@.params =~= seq![RpcParamView::Count(num_blocks), RpcParamView::Text(address@)]);
    r
}

/// `listlabels`, without parameters.
pub fn list_labels_request() -> (r: RpcRequest)
    ensures
        r@ == call("listwallets"@, "listlabels"@, seq![]),
{
    let r = make_call("listwallets", "listlabels", Vec::new());
    assert(r@.params =~= seq![]);
    r
}

/// `getaddressesbylabel` for one label.
pub fn addresses_by_label_request(label: &str) -> (r: RpcRequest)
    ensures
        r@ == call("getaddressesbylabel"@, "getaddressesbylabel"@, seq![RpcParamView::Text(label@)]),
{
    let mut params = Vec::new();
    params.push(text_param(label));
    let r = make_call("getaddressesbylabel", "getaddressesbylabel", params);
    assert(r@.params =~= seq![RpcParamView::Text(label@)]);
    r
}

/// `listunspent` with at least 1 and at most 9999999 confirmations, for one address.
pub fn list_unspent_request(id: &str, address: &str) -> (r: RpcRequest)
    ensures
        r@ == call(id@, "listunspent"@, seq![
            RpcParamView::Count(1),
            RpcParamView::Count(9999999),
            RpcParamView::TextList(seq![address@]),
        ]),
{
    let mut addresses = Vec::new();
    addresses.push(String::from_str(address));
    let mut params = Vec::new();
    params.push(RpcParam::Count(1));
    params.push(RpcParam::Count(9999999));
    params.push(RpcParam::TextList(addresses));
    let r = make_call(id, "listunspent", params);
    assert(addresses@.map_values(|s: String| s@) =~= seq![address@]);
    assert(r@.params =~= seq![
        RpcParamView::Count(1),
        RpcParamView::Count(9999999),
        RpcParamView::TextList(seq![address@]),
    ]);
    r
}

/// `signrawtransactionwithwallet` for a raw transaction in hex.
pub fn sign_raw_transaction_request(raw_tx: &str) -> (r: RpcRequest)
    ensures
        r@ == call(transfer_id(), "signrawtransactionwithwallet"@, seq![RpcParamView::Text(raw_tx@)]),
{
    let mut params = Vec::new();
    params.push(text_param(raw_tx));
    let r = make_call("curltext", "signrawtransactionwithwallet", params);
    assert(r@.params =~= seq![RpcParamView::Text(raw_tx@)]);
    r
}

/// `sendrawtransaction` for a signed transaction in hex.
pub fn send_raw_transaction_request(signed_tx: &str) -> (r: RpcRequest)
    ensures
        r@ == call(transfer_id(), "sendrawtransaction"@, seq![RpcParamView::Text(signed_tx@)]),
{
    let mut params = Vec::new();
    params.push(text_param(signed_tx));
    let r = make_call("curltext", "sendrawtransaction", params);
    assert(r@.params =~= seq![RpcParamView::Text(signed_tx@)]);
    r
}

} // verus!
