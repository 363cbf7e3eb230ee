use vstd::prelude::*;
use vstd::string::*;

use crate::models::AddFundsRequest;
use crate::reply::{
    error_reply, node_reply, reply, text_reply, CallOutcome, Embedded, HttpReply,
    HttpReplyView, HttpStatus, ReplyBody, ReplyBodyView, Step, StepView,
};
use crate::rpc::{call, default_id, generate_to_address_request, RpcParamView, RpcRequest};
use crate::text::{join_text, decimal, digits_value, is_digit, lemma_decimal_reads_back, push_decimal};

verus! {

// ---------------------------------------------------------------- mine_blocks

/// The number of blocks to mine: the `numBlocks` member of the request body
/// where it is an unsigned integer, else 1.
pub fn mine_blocks_count(field: Option<u64>) -> (r: u64)
    ensures
        r == match field {
            Some(n) => n,
            None => 1,
        },
{
    match field {
        Some(n) => n,
        None => 1,
    }
}

/// The failure reply of the mining endpoint.
pub open spec fn mining_failed() -> HttpReplyView {
    reply(HttpStatus::InternalServerError, ReplyBodyView::Text("Failed to mine blocks"@))
}

/// The step after `getnewaddress`: `Replied(Some(address))` holds the
/// `result` of the node's reply where it is a string, `Replied(None)` a
/// reply whose `result` is not.
pub open spec fn after_new_address_of(num_blocks: u64, outcome: CallOutcome<Option<String>>) -> StepView {
    match outcome {
        CallOutcome::Replied(Some(address)) => StepView::Call(call(
            default_id(),
            "generatetoaddress"@,
            seq![RpcParamView::Count(num_blocks), RpcParamView::Text(address@)],
        )),
        _ => StepView::Respond(mining_failed()),
    }
}

/// What the mining endpoint does once it asked the node for a new address:
/// mine `num_blocks` blocks to that address, or give up with a 500.
pub fn mine_blocks_after_address(num_blocks: u64, outcome: CallOutcome<Option<String>>) -> (r: Step)
    ensures
        r@ == after_new_address_of(num_blocks, outcome),
{
    match outcome {
        CallOutcome::Replied(Some(address)) => {
            Step::Call(generate_to_address_request("postman", num_blocks, address.as_str()))
        },
        _ => Step::Respond(text_reply(HttpStatus::InternalServerError, "Failed to mine blocks")),
    }
}

/// The reply of the mining endpoint after `generatetoaddress`.
pub open spec fn after_generate_of<T>(outcome: CallOutcome<T>) -> HttpReplyView {
    match outcome {
        CallOutcome::SendFailed(_) => mining_failed(),
        CallOutcome::Unreadable => reply(HttpStatus::Success, ReplyBodyView::Node(Embedded::EmptyObject)),
        CallOutcome::Replied(_) => reply(HttpStatus::Success, ReplyBodyView::Node(Embedded::NodeReply)),
    }
}

/// The reply of the mining endpoint once the blocks were requested: the
/// node's reply (`{}` where it is not JSON), or a 500 where the call did not
/// reach the node.
pub fn mine_blocks_after_generate<T>(outcome: &CallOutcome<T>) -> (r: HttpReply)
    ensures
        r@ == after_generate_of(*outcome),
{
    match outcome {
        CallOutcome::SendFailed(_) => text_reply(HttpStatus::InternalServerError, "Failed to mine blocks"),
        CallOutcome::Unreadable => node_reply(Embedded::EmptyObject),
        CallOutcome::Replied(_) => node_reply(Embedded::NodeReply),
    }
}

// ---------------------------------------------------------------- add_funds

/// The refusal of a funding request without an address or without blocks.
pub open spec fn incomplete_funding_reply() -> HttpReplyView {
    reply(
        HttpStatus::BadRequest,
        ReplyBodyView::Error("É necessário fornecer o endereço e o número de blocos a minerar."@),
    )
}

/// A funding request is refused when it names no address or no block.
pub open spec fn funding_refused(req: AddFundsRequest) -> bool {
    req.address@.len() == 0 || req.num_blocks == 0
}

/// The call of a funding request: `generatetoaddress` for the requested
/// blocks and address; or the 400 that refuses the request before any call.
pub fn add_funds_request(req: &AddFundsRequest) -> (r: Result<RpcRequest, HttpReply>)
    ensures
        funding_refused(*req) ==> r is Err && r->Err_0@ == incomplete_funding_reply(),
        !funding_refused(*req) ==> r is Ok && r->Ok_0@ == call(
            "addfunds"@,
            "generatetoaddress"@,
            seq![RpcParamView::Count(req.num_blocks), RpcParamView::Text(req.address@)],
        ),
{
    if req.address.as_str().is_empty() || req.num_blocks == 0 {
        Err(error_reply(
            HttpStatus::BadRequest,
            String::from_str("É necessário fornecer o endereço e o número de blocos a minerar."),
        ))
    } else {
        Ok(generate_to_address_request("addfunds", req.num_blocks, req.address.as_str()))
    }
}

/// The message of a successful funding.
pub open spec fn funding_message(num_blocks: u64) -> Seq<char> {
    "Minerados "@ + decimal(num_blocks as nat) + " blocos. Recompensa enviada para o endereço."@
}

/// The reply of a funding request after `generatetoaddress`.
pub open spec fn add_funds_reply_of<T>(num_blocks: u64, outcome: CallOutcome<T>) -> HttpReplyView {
    match outcome {
        CallOutcome::SendFailed(e) => reply(
            HttpStatus::InternalServerError,
            ReplyBodyView::Error("Erro ao comunicar-se com o nó Bitcoin: "@ + e@),
        ),
        CallOutcome::Unreadable => reply(
            HttpStatus::InternalServerError,
            ReplyBodyView::Error("Erro ao processar a resposta do nó Bitcoin."@),
        ),
        CallOutcome::Replied(_) => reply(HttpStatus::Success, ReplyBodyView::MinedBlocks(funding_message(num_blocks))),
    }
}

/// The reply of a funding request: the number of mined blocks with the
/// node's `result`, or a 500 that says whether the node was reached.
pub fn add_funds_reply<T>(num_blocks: u64, outcome: &CallOutcome<T>) -> (r: HttpReply)
    ensures
        r@ == add_funds_reply_of(num_blocks, *outcome),
{
    match outcome {
        CallOutcome::SendFailed(e) => {
            let message = join_text("Erro ao comunicar-se com o nó Bitcoin: ", e.as_str());
            error_reply(HttpStatus::InternalServerError, message)
        },
        CallOutcome::Unreadable => error_reply(
            HttpStatus::InternalServerError,
            String::from_str("Erro ao processar a resposta do nó Bitcoin."),
        ),
        CallOutcome::Replied(_) => {
            let mut message = String::from_str("Minerados ");
            push_decimal(&mut message, num_blocks);
            message.append(" blocos. Recompensa enviada para o endereço.");
            HttpReply { status: HttpStatus::Success, body: ReplyBody::MinedBlocks(message) }
        },
    }
}

/// Once `generatetoaddress` was sent, mining answers 200 unless the call
/// failed to reach the node; a JSON reply (the mined block hashes) is
/// forwarded, `{}` stands only for a reply that is not JSON.
pub proof fn lemma_generate_forwards_reply<T>(outcome: CallOutcome<T>)
    ensures
        (after_generate_of(outcome).status == HttpStatus::Success) <==> !(outcome is SendFailed),
        outcome is Replied ==> after_generate_of(outcome).body == ReplyBodyView::Node(Embedded::NodeReply),
        outcome is Unreadable ==> after_generate_of(outcome).body == ReplyBodyView::Node(Embedded::EmptyObject),
        outcome is SendFailed ==> after_generate_of(outcome)
            == reply(HttpStatus::InternalServerError, ReplyBodyView::Text("Failed to mine blocks"@)),
{
}

/// Mining generates to the address the node returned, with the requested
/// number of blocks; without an address it answers 500.
pub proof fn lemma_mining_uses_address_and_count(num_blocks: u64, outcome: CallOutcome<Option<String>>)
    ensures
        outcome matches CallOutcome::Replied(Some(address)) ==> after_new_address_of(num_blocks, outcome)
            == StepView::Call(call(
                "postman"@,
                "generatetoaddress"@,
                seq![RpcParamView::Count(num_blocks), RpcParamView::Text(address@)],
            )),
        !(outcome matches CallOutcome::Replied(Some(_))) ==> after_new_address_of(num_blocks, outcome)
            == StepView::Respond(reply(HttpStatus::InternalServerError, ReplyBodyView::Text("Failed to mine blocks"@))),
{
}

/// A funding that reached the node answers 200 with a message that reads
/// "Minerados ", then the requested number of blocks in decimal digits (a
/// text that reads back as that very number), then
/// " blocos. Recompensa enviada para o endereço.".
pub proof fn lemma_funding_message_counts_blocks<T>(num_blocks: u64, result: T)
    ensures
        add_funds_reply_of(num_blocks, CallOutcome::Replied(result)).status == HttpStatus::Success,
        add_funds_reply_of(num_blocks, CallOutcome::Replied(result)).body == ReplyBodyView::MinedBlocks(
            "Minerados "@ + decimal(num_blocks as nat) + " blocos. Recompensa enviada para o endereço."@,
        ),
        digits_value(decimal(num_blocks as nat)) == num_blocks,
        forall|i: int| 0 <= i < decimal(num_blocks as nat).len() ==> is_digit(#[trigger] decimal(num_blocks as nat)[i]),
{
    lemma_decimal_reads_back(num_blocks as nat);
}

/// A funding answers 200 exactly when the node replied with JSON; a failure
/// to reach the node reports the error's text.
pub proof fn lemma_funding_failures<T>(num_blocks: u64, outcome: CallOutcome<T>)
    ensures
        (add_funds_reply_of(num_blocks, outcome).status == HttpStatus::Success) <==> outcome is Replied,
        outcome matches CallOutcome::SendFailed(e) ==> add_funds_reply_of(num_blocks, outcome).body
            == ReplyBodyView::Error("Erro ao comunicar-se com o nó Bitcoin: "@ + e@),
        outcome is Unreadable ==> add_funds_reply_of(num_blocks, outcome)
            == reply(HttpStatus::InternalServerError, ReplyBodyView::Error("Erro ao processar a resposta do nó Bitcoin."@)),
{
}

} // verus!
