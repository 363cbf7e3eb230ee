use vstd::prelude::*;
use vstd::string::*;

use crate::reply::{
    error_reply, opt_view, reply, text_or_empty, unwrap_text, CallOutcome, HttpReply,
    HttpReplyView, HttpStatus, ReplyBody, ReplyBodyView, Step, StepView,
};
use crate::rpc::{
    call, list_unspent_request, send_raw_transaction_request, sign_raw_transaction_request,
    transfer_id, RpcParam, RpcParamView, RpcRequest, TxInput,
};

verus! {

/// `listunspent` for the paying address, the first call of a transfer.
pub fn transfer_utxo_request(from_address: &str) -> (r: RpcRequest)
    ensures
        r@ == call(transfer_id(), "listunspent"@, seq![
            RpcParamView::Count(1),
            RpcParamView::Count(9999999),
            RpcParamView::TextList(seq![from_address@]),
        ]),
{
    list_unspent_request("curltext", from_address)
}

/// What a transfer does after `listunspent`: `None` where it goes on to
/// weigh the unspent outputs, or the 500 that ends it.
pub open spec fn after_utxos_of<T>(outcome: CallOutcome<T>) -> Option<HttpReplyView> {
    match outcome {
        CallOutcome::SendFailed(_) => Some(reply(
            HttpStatus::InternalServerError,
            ReplyBodyView::Error("Failed to fetch UTXOs"@),
        )),
        CallOutcome::Unreadable => Some(reply(
            HttpStatus::InternalServerError,
            ReplyBodyView::Error("Failed to parse UTXOs"@),
        )),
        CallOutcome::Replied(_) => None,
    }
}

/// Ends a transfer whose `listunspent` call failed; a reply whose `result`
/// is no array counts as no unspent output at all, and the transfer goes on.
pub fn transfer_after_utxos<T>(outcome: &CallOutcome<T>) -> (r: Option<HttpReply>)
    ensures
        match (r, after_utxos_of(*outcome)) {
            (Some(reply), Some(expected)) => reply@ == expected,
            (None, None) => true,
            _ => false,
        },
{
    match outcome {
        CallOutcome::SendFailed(_) => Some(error_reply(
            HttpStatus::InternalServerError,
            String::from_str("Failed to fetch UTXOs"),
        )),
        CallOutcome::Unreadable => Some(error_reply(
            HttpStatus::InternalServerError,
            String::from_str("Failed to parse UTXOs"),
        )),
        CallOutcome::Replied(_) => None,
    }
}

/// The refusal of a transfer whose amount exceeds the balance of the unspent
/// outputs; no transaction is built.
pub fn insufficient_funds_reply() -> (r: HttpReply)
    ensures
        r@ == reply(HttpStatus::BadRequest, ReplyBodyView::Error("Insufficient funds"@)),
{
    error_reply(HttpStatus::BadRequest, String::from_str("Insufficient funds"))
}

fn copy_input(u: &TxInput) -> (r: TxInput)
    ensures
        r@ == u@,
{
    TxInput { txid: u.txid.clone(), vout: u.vout.clone() }
}

/// `createrawtransaction` spending every unspent output, in their order.
/// Its second parameter, the outputs with their amounts, is added where the
/// amounts are weighed.
pub fn raw_transaction_request(utxos: &Vec<TxInput>) -> (r: RpcRequest)
    ensures
        r@ == call(transfer_id(), "createrawtransaction"@, seq![
            RpcParamView::Inputs(utxos@.map_values(|u: TxInput| u@)),
        ]),
{
    let mut inputs: Vec<TxInput> = Vec::new();
    let mut i: usize = 0;
    while i < utxos.len()
        invariant
            i <= utxos@.len(),
            inputs@.len() == i,
            forall|k: int| 0 <= k < i ==> #[trigger] inputs@[k]@ == utxos@[k]@,
        decreases utxos@.len() - i,
    {
        inputs.push(copy_input(&utxos[i]));
        i = i + 1;
    }
    assert(inputs@.map_values(|u: TxInput| u@) =~= utxos@.map_values(|u: TxInput| u@));
    let mut params = Vec::new();
    params.push(RpcParam::Inputs(inputs));
    let r = RpcRequest {
        id: String::from_str("curltext"),
        method: String::from_str("createrawtransaction"),
        params,
    };
    assert(r@.params =~= seq![RpcParamView::Inputs(utxos@.map_values(|u: TxInput| u@))]);
    r
}

/// What a transfer reads of the reply of one of its calls: the `result`
/// member where it is a string, and the `hex` member of `result` where that
/// is a string.
pub struct StageReply {
    pub result: Option<String>,
    pub result_hex: Option<String>,
}

/// The call that a transfer waits on.
#[derive(Clone, Copy, PartialEq, Eq, Structural, Debug)]
pub enum TransferStage {
    /// `createrawtransaction`; the raw transaction is read from `result`.
    Create,
    /// `signrawtransactionwithwallet`; the signed transaction is read from `result.hex`.
    Sign,
    /// `sendrawtransaction`; the transaction id is read from `result`.
    Submit,
}

/// The message of the 500 that ends a transfer at a stage.
pub open spec fn stage_failure(stage: TransferStage) -> Seq<char> {
    match stage {
        TransferStage::Create => "Failed to create raw transaction"@,
        TransferStage::Sign => "Failed to sign transaction"@,
        TransferStage::Submit => "Failed to send transaction"@,
    }
}

/// The text that a stage takes from its reply: `result.hex` after signing,
/// `result` otherwise; a missing text counts as empty.
pub open spec fn stage_text(stage: TransferStage, r: StageReply) -> Seq<char> {
    match stage {
        TransferStage::Sign => text_or_empty(opt_view(r.result_hex)),
        _ => text_or_empty(opt_view(r.result)),
    }
}

/// The next stage of a transfer and what it does, given how the call of
/// `stage` went.
pub open spec fn transfer_step_of(stage: TransferStage, outcome: CallOutcome<StageReply>) -> (Option<TransferStage>, StepView) {
    match outcome {
        CallOutcome::Replied(t) => {
            let text = stage_text(stage, t);
            match stage {
                TransferStage::Create => (
                    Some(TransferStage::Sign),
                    StepView::Call(call(transfer_id(), "signrawtransactionwithwallet"@, seq![RpcParamView::Text(text)])),
                ),
                TransferStage::Sign => (
                    Some(TransferStage::Submit),
                    StepView::Call(call(transfer_id(), "sendrawtransaction"@, seq![RpcParamView::Text(text)])),
                ),
                TransferStage::Submit => (
                    None,
                    StepView::Respond(reply(HttpStatus::Success, ReplyBodyView::TxId(text))),
                ),
            }
        },
        _ => (
            None,
            StepView::Respond(reply(HttpStatus::InternalServerError, ReplyBodyView::Error(stage_failure(stage)))),
        ),
    }
}

/// One step of a transfer once its transaction was built: sign the raw
/// transaction, submit the signed one, and answer with the transaction id;
/// a failed call at any stage ends the transfer with that stage's 500.
pub fn transfer_step(stage: TransferStage, outcome: CallOutcome<StageReply>) -> (r: (Option<TransferStage>, Step))
    ensures
        (r.0, r.1@) == transfer_step_of(stage, outcome),
{
    match outcome {
        CallOutcome::Replied(t) => {
            let text = match stage {
                TransferStage::Sign => unwrap_text(t.result_hex),
                _ => unwrap_text(t.result),
            };
            match stage {
                TransferStage::Create => (
                    Some(TransferStage::Sign),
                    Step::Call(sign_raw_transaction_request(text.as_str())),
                ),
                TransferStage::Sign => (
                    Some(TransferStage::Submit),
                    Step::Call(send_raw_transaction_request(text.as_str())),
                ),
                TransferStage::Submit => (
                    None,
                    Step::Respond(HttpReply { status: HttpStatus::Success, body: ReplyBody::TxId(text) }),
                ),
            }
        },
        _ => {
            let message = match stage {
                TransferStage::Create => String::from_str("Failed to create raw transaction"),
                TransferStage::Sign => String::from_str("Failed to sign transaction"),
                TransferStage::Submit => String::from_str("Failed to send transaction"),
            };
            (None, Step::Respond(error_reply(HttpStatus::InternalServerError, message)))
        },
    }
}

/// A transfer submits a transaction only right after a signing call replied,
/// and submits exactly the `result.hex` text of the signing reply (or the
/// empty text).
pub proof fn lemma_submission_follows_signing(stage: TransferStage, outcome: CallOutcome<StageReply>)
    ensures
        match transfer_step_of(stage, outcome).1 {
            StepView::Call(c) => c.method == "sendrawtransaction"@ ==> stage == TransferStage::Sign
                && match outcome {
                    CallOutcome::Replied(t) => c.params == seq![RpcParamView::Text(text_or_empty(opt_view(t.result_hex)))],
                    _ => false,
                },
            StepView::Respond(_) => true,
        },
{
    reveal_strlit("sendrawtransaction");
    reveal_strlit("signrawtransactionwithwallet");
    assert("signrawtransactionwithwallet"@.len() != "sendrawtransaction"@.len());
}

/// Every step of a transfer either ends it or moves it to a later stage, so
/// a transfer makes at most three calls after building its transaction.
pub proof fn lemma_transfer_moves_forward(stage: TransferStage, outcome: CallOutcome<StageReply>)
    ensures
        transfer_step_of(stage, outcome).0 matches Some(next) ==> stage_rank(next) == stage_rank(stage) + 1,
        transfer_step_of(stage, outcome).0 is None <==> transfer_step_of(stage, outcome).1 is Respond,
{
}

/// The position of a stage in a transfer.
pub open spec fn stage_rank(stage: TransferStage) -> nat {
    match stage {
        TransferStage::Create => 0,
        TransferStage::Sign => 1,
        TransferStage::Submit => 2,
    }
}

/// Once the transaction is built, each reply feeds the next call with the
/// text its stage reads: the raw transaction (`result`) is signed, the
/// signed transaction (`result.hex`) is submitted, and the submission's
/// `result` is the transaction id answered with 200. A missing text counts as
/// empty. A failed call ends the transfer with a 500 naming its stage.
pub proof fn lemma_transfer_passes_texts_on(stage: TransferStage, result: Option<String>, result_hex: Option<String>)
    ensures
        ({
            let step = transfer_step_of(stage, CallOutcome::Replied(StageReply { result, result_hex }));
            let r = match result { Some(t) => t@, None => Seq::<char>::empty() };
            let h = match result_hex { Some(t) => t@, None => Seq::<char>::empty() };
            &&& stage == TransferStage::Create ==> step == (Some(TransferStage::Sign), StepView::Call(call(
                "curltext"@, "signrawtransactionwithwallet"@, seq![RpcParamView::Text(r)])))
            &&& stage == TransferStage::Sign ==> step == (Some(TransferStage::Submit), StepView::Call(call(
                "curltext"@, "sendrawtransaction"@, seq![RpcParamView::Text(h)])))
            &&& stage == TransferStage::Submit ==> step == (None::<TransferStage>, StepView::Respond(reply(
                HttpStatus::Success, ReplyBodyView::TxId(r))))
        }),
{
}

/// A failed call ends a transfer at once with a 500 that names the stage.
pub proof fn lemma_transfer_failure_ends(stage: TransferStage, outcome: CallOutcome<StageReply>)
    ensures
        !(outcome is Replied) ==> transfer_step_of(stage, outcome) == (None::<TransferStage>, StepView::Respond(reply(
            HttpStatus::InternalServerError,
            ReplyBodyView::Error(match stage {
                TransferStage::Create => "Failed to create raw transaction"@,
                TransferStage::Sign => "Failed to sign transaction"@,
                TransferStage::Submit => "Failed to send transaction"@,
            }),
        ))),
{
}

/// A transfer goes on past `listunspent` exactly when the node replied with
/// JSON; otherwise it ends with a 500.
pub proof fn lemma_utxo_listing_gate<T>(outcome: CallOutcome<T>)
    ensures
        after_utxos_of(outcome) is None <==> outcome is Replied,
        outcome is SendFailed ==> after_utxos_of(outcome) == Some(reply(
            HttpStatus::InternalServerError, ReplyBodyView::Error("Failed to fetch UTXOs"@))),
        outcome is Unreadable ==> after_utxos_of(outcome) == Some(reply(
            HttpStatus::InternalServerError, ReplyBodyView::Error("Failed to parse UTXOs"@))),
{
}

} // verus!
