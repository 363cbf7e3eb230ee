use vstd::prelude::*;

use crate::reply::{
    node_reply, reply, text_reply, CallOutcome, Embedded, HttpReply, HttpReplyView, HttpStatus,
    ReplyBody, ReplyBodyView,
};

verus! {

/// The reply to a lookup (of a block hash or of a transaction) that forwards
/// the node's reply.
pub open spec fn lookup_reply_of<T>(outcome: CallOutcome<T>) -> HttpReplyView {
    match outcome {
        CallOutcome::SendFailed(_) => reply(
            HttpStatus::InternalServerError,
            ReplyBodyView::Text("Failed to send request"@),
        ),
        CallOutcome::Unreadable => reply(
            HttpStatus::InternalServerError,
            ReplyBodyView::Text("Invalid response from RPC server"@),
        ),
        CallOutcome::Replied(_) => reply(HttpStatus::Success, ReplyBodyView::Node(Embedded::NodeReply)),
    }
}

/// The reply of the block and transaction lookups: the node's JSON reply as
/// it came, or a 500 that says which part of the call failed.
pub fn lookup_reply<T>(outcome: &CallOutcome<T>) -> (r: HttpReply)
    ensures
        r@ == lookup_reply_of(*outcome),
{
    match outcome {
        CallOutcome::SendFailed(_) => text_reply(HttpStatus::InternalServerError, "Failed to send request"),
        CallOutcome::Unreadable => text_reply(HttpStatus::InternalServerError, "Invalid response from RPC server"),
        CallOutcome::Replied(_) => node_reply(Embedded::NodeReply),
    }
}

/// What the status reply embeds of one of the two replies that it was sent.
pub open spec fn embedded_of<T>(outcome: CallOutcome<T>) -> Embedded {
    match outcome {
        CallOutcome::Replied(_) => Embedded::NodeReply,
        _ => Embedded::EmptyObject,
    }
}

fn embedded<T>(outcome: &CallOutcome<T>) -> (r: Embedded)
    ensures
        r == embedded_of(*outcome),
{
    match outcome {
        CallOutcome::Replied(_) => Embedded::NodeReply,
        _ => Embedded::EmptyObject,
    }
}

/// The reply of the node status endpoint, given how `getblockchaininfo` and
/// `getnetworkinfo` went; both calls are always made.
pub open spec fn node_status_reply_of<T, U>(blockchain: CallOutcome<T>, network: CallOutcome<U>) -> HttpReplyView {
    if blockchain is SendFailed || network is SendFailed {
        reply(HttpStatus::InternalServerError, ReplyBodyView::Text("Failed to fetch node status"@))
    } else {
        reply(HttpStatus::Success, ReplyBodyView::NodeStatus {
            blockchain_info: embedded_of(blockchain),
            network_info: embedded_of(network),
        })
    }
}

/// The reply of the node status endpoint: a 500 unless both calls reached the
/// node; otherwise both replies, each as `{}` where it is not JSON.
pub fn node_status_reply<T, U>(blockchain: &CallOutcome<T>, network: &CallOutcome<U>) -> (r: HttpReply)
    ensures
        r@ == node_status_reply_of(*blockchain, *network),
{
    let failed_b = match blockchain {
        CallOutcome::SendFailed(_) => true,
        _ => false,
    };
    let failed_n = match network {
        CallOutcome::SendFailed(_) => true,
        _ => false,
    };
    if failed_b || failed_n {
        text_reply(HttpStatus::InternalServerError, "Failed to fetch node status")
    } else {
        HttpReply {
            status: HttpStatus::Success,
            body: ReplyBody::NodeStatus {
                blockchain_info: embedded(blockchain),
                network_info: embedded(network),
            },
        }
    }
}

/// A lookup answers 200 exactly when the node replied with JSON, and then
/// it forwards that reply; every other outcome is a 500.
pub proof fn lemma_lookup_forwards_reply<T>(outcome: CallOutcome<T>)
    ensures
        (lookup_reply_of(outcome).status == HttpStatus::Success) <==> outcome is Replied,
        outcome is Replied ==> lookup_reply_of(outcome).body == ReplyBodyView::Node(Embedded::NodeReply),
        outcome is SendFailed ==> lookup_reply_of(outcome)
            == reply(HttpStatus::InternalServerError, ReplyBodyView::Text("Failed to send request"@)),
        outcome is Unreadable ==> lookup_reply_of(outcome)
            == reply(HttpStatus::InternalServerError, ReplyBodyView::Text("Invalid response from RPC server"@)),
{
}

/// The node status answers 200 exactly when both calls reached the node;
/// then each part holds its own call's reply where that reply is JSON, and
/// `{}` only where it is not.
pub proof fn lemma_node_status_embeds_each_reply<T, U>(blockchain: CallOutcome<T>, network: CallOutcome<U>)
    ensures
        (node_status_reply_of(blockchain, network).status == HttpStatus::Success)
            <==> (!(blockchain is SendFailed) && !(network is SendFailed)),
        !(blockchain is SendFailed) && !(network is SendFailed) ==> node_status_reply_of(blockchain, network).body
            == (ReplyBodyView::NodeStatus {
                blockchain_info: if blockchain is Replied { Embedded::NodeReply } else { Embedded::EmptyObject },
                network_info: if network is Replied { Embedded::NodeReply } else { Embedded::EmptyObject },
            }),
        blockchain is SendFailed || network is SendFailed ==> node_status_reply_of(blockchain, network)
            == reply(HttpStatus::InternalServerError, ReplyBodyView::Text("Failed to fetch node status"@)),
{
}

} // verus!
