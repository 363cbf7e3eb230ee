use vstd::prelude::*;
use vstd::string::*;

use crate::rpc::RpcRequest;

verus! {

/// The HTTP status of a reply of the service.
#[derive(Clone, Copy, PartialEq, Eq, Structural, Debug)]
pub enum HttpStatus {
    Success,
    BadRequest,
    InternalServerError,
}

/// The numeric code of a status.
pub open spec fn status_code(s: HttpStatus) -> u16 {
    match s {
        HttpStatus::Success => 200,
        HttpStatus::BadRequest => 400,
        HttpStatus::InternalServerError => 500,
    }
}

impl HttpStatus {
    /// The numeric code of this status.
    pub fn code(&self) -> (c: u16)
        ensures
            c == status_code(*self),
    {
        match self {
            HttpStatus::Success => 200,
            HttpStatus::BadRequest => 400,
            HttpStatus::InternalServerError => 500,
        }
    }
}

/// A part of a JSON reply that is taken from a reply of the node.
#[derive(Clone, Copy, PartialEq, Eq, Structural, Debug)]
pub enum Embedded {
    /// The node's JSON reply, unchanged.
    NodeReply,
    /// `{}`, where the node's reply could not be read as JSON.
    EmptyObject,
}

/// One wallet label with the addresses filed under it.
pub struct LabelAddresses {
    pub label: String,
    pub addresses: Vec<String>,
}

/// The mathematical value of a [`LabelAddresses`].
pub struct LabelAddressesView {
    pub label: Seq<char>,
    pub addresses: Seq<Seq<char>>,
}

impl View for LabelAddresses {
    type V = LabelAddressesView;

    open spec fn view(&self) -> LabelAddressesView {
        LabelAddressesView {
            label: self.label@,
            addresses: self.addresses@.map_values(|s: String| s@),
        }
    }
}

/// What the service reports of one unspent output, amounts aside.
pub struct TxSummary {
    pub txid: String,
    pub confirmations: u64,
}

/// The mathematical value of a [`TxSummary`].
pub struct TxSummaryView {
    pub txid: Seq<char>,
    pub confirmations: u64,
}

impl View for TxSummary {
    type V = TxSummaryView;

    open spec fn view(&self) -> TxSummaryView {
        TxSummaryView { txid: self.txid@, confirmations: self.confirmations }
    }
}

/// The body of a reply of the service.
pub enum ReplyBody {
    /// A plain-text body.
    Text(String),
    /// `{"error": message}`.
    Error(String),
    /// The node's JSON reply, unchanged.
    Node(Embedded),
    /// `{"blockchain_info": .., "network_info": ..}`.
    NodeStatus { blockchain_info: Embedded, network_info: Embedded },
    /// `[{"label": .., "addresses": [..]}, ..]`.
    Wallets(Vec<LabelAddresses>),
    /// `{"txId": txid}`.
    TxId(String),
    /// `{"message": message, "minedBlocks": <the "result" member of the node's reply>}`.
    MinedBlocks(String),
    /// `{"address": address, "balance": .., "transactions": [..]}`, where the
    /// balance and the amounts are taken from the unspent outputs of the
    /// node's reply, in the order of `transactions`.
    Wallet { address: String, transactions: Vec<TxSummary> },
}

/// The mathematical value of a [`ReplyBody`].
pub enum ReplyBodyView {
    Text(Seq<char>),
    Error(Seq<char>),
    Node(Embedded),
    NodeStatus { blockchain_info: Embedded, network_info: Embedded },
    Wallets(Seq<LabelAddressesView>),
    TxId(Seq<char>),
    MinedBlocks(Seq<char>),
    Wallet { address: Seq<char>, transactions: Seq<TxSummaryView> },
}

impl View for ReplyBody {
    type V = ReplyBodyView;

    open spec fn view(&self) -> ReplyBodyView {
        match self {
            ReplyBody::Text(s) => ReplyBodyView::Text(s@),
            ReplyBody::Error(s) => ReplyBodyView::Error(s@),
            ReplyBody::Node(e) => ReplyBodyView::Node(*e),
            ReplyBody::NodeStatus { blockchain_info, network_info } => ReplyBodyView::NodeStatus {
                blockchain_info: *blockchain_info,
                network_info: *network_info,
            },
            ReplyBody::Wallets(v) => ReplyBodyView::Wallets(v@.map_values(|w: LabelAddresses| w@)),
            ReplyBody::TxId(s) => ReplyBodyView::TxId(s@),
            ReplyBody::MinedBlocks(s) => ReplyBodyView::MinedBlocks(s@),
            ReplyBody::Wallet { address, transactions } => ReplyBodyView::Wallet {
                address: address@,
                transactions: transactions@.map_values(|t: TxSummary| t@),
            },
        }
    }
}

/// A reply of the service to its HTTP client.
pub struct HttpReply {
    pub status: HttpStatus,
    pub body: ReplyBody,
}

/// The mathematical value of an [`HttpReply`].
pub struct HttpReplyView {
    pub status: HttpStatus,
    pub body: ReplyBodyView,
}

impl View for HttpReply {
    type V = HttpReplyView;

    open spec fn view(&self) -> HttpReplyView {
        HttpReplyView { status: self.status, body: self.body@ }
    }
}

/// The reply with the given status and body.
pub open spec fn reply(status: HttpStatus, body: ReplyBodyView) -> HttpReplyView {
    HttpReplyView { status, body }
}

/// How one JSON-RPC call to the node went.
pub enum CallOutcome<T> {
    /// The request could not be sent or no reply came; the text describes the error.
    SendFailed(String),
    /// A reply came, but its body is not JSON.
    Unreadable,
    /// A JSON reply came; `T` holds what the service reads of it.
    Replied(T),
}

/// What the service does next in a flow of calls.
pub enum Step {
    /// Send this call to the node.
    Call(RpcRequest),
    /// Answer the HTTP client with this reply; the flow ends.
    Respond(HttpReply),
}

/// The mathematical value of a [`Step`].
pub enum StepView {
    Call(crate::rpc::RpcRequestView),
    Respond(HttpReplyView),
}

impl View for Step {
    type V = StepView;

    open spec fn view(&self) -> StepView {
        match self {
            Step::Call(r) => StepView::Call(r@),
            Step::Respond(r) => StepView::Respond(r@),
        }
    }
}

/// A reply with a plain-text body.
pub fn text_reply(status: HttpStatus, text: &str) -> (r: HttpReply)
    ensures
        r@ == reply(status, ReplyBodyView::Text(text@)),
{
    HttpReply { status, body: ReplyBody::Text(String::from_str(text)) }
}

/// A reply with the body `{"error": message}`.
pub fn error_reply(status: HttpStatus, message: String) -> (r: HttpReply)
    ensures
        r@ == reply(status, ReplyBodyView::Error(message@)),
{
    HttpReply { status, body: ReplyBody::Error(message) }
}

/// A 200 reply that forwards the node's reply, or `{}` where it was not JSON.
pub fn node_reply(part: Embedded) -> (r: HttpReply)
    ensures
        r@ == reply(HttpStatus::Success, ReplyBodyView::Node(part)),
{
    HttpReply { status: HttpStatus::Success, body: ReplyBody::Node(part) }
}

/// The view of an optional text.
pub open spec fn opt_view(o: Option<String>) -> Option<Seq<char>> {
    match o {
        Some(s) => Some(s@),
        None => None,
    }
}

/// The text, or the empty text where there is none.
pub open spec fn text_or_empty(o: Option<Seq<char>>) -> Seq<char> {
    match o {
        Some(s) => s,
        None => Seq::empty(),
    }
}

/// The text, or the empty text where there is none.
pub fn unwrap_text(o: Option<String>) -> (r: String)
    ensures
        r@ == text_or_empty(opt_view(o)),
{
    match o {
        Some(s) => s,
        None => String::new(),
    }
}

} // verus!
