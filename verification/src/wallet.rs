use vstd::prelude::*;
use vstd::string::*;

use crate::reply::{
    error_reply, node_reply, opt_view, reply, text_or_empty, text_reply, unwrap_text, CallOutcome,
    Embedded, HttpReply, HttpReplyView, HttpStatus, LabelAddresses, LabelAddressesView, ReplyBody,
    ReplyBodyView, TxSummary, TxSummaryView,
};
use crate::rpc::{
    call, default_id, labelled_address_request, list_unspent_request, RpcParamView, RpcRequest,
};
use crate::text::join_text;

verus! {

// ---------------------------------------------------------------- create_wallet

/// `getnewaddress` with the label that the request body gives as a string,
/// or with the empty label.
pub fn create_wallet_request(label: Option<String>) -> (r: RpcRequest)
    ensures
        r@ == call(default_id(), "getnewaddress"@, seq![RpcParamView::Text(text_or_empty(opt_view(label)))]),
{
    let label = unwrap_text(label);
    labelled_address_request(label.as_str())
}

/// The reply of the wallet creation endpoint.
pub open spec fn create_wallet_reply_of<T>(outcome: CallOutcome<T>) -> HttpReplyView {
    match outcome {
        CallOutcome::SendFailed(_) => reply(
            HttpStatus::InternalServerError,
            ReplyBodyView::Text("Failed to create wallet"@),
        ),
        CallOutcome::Unreadable => reply(HttpStatus::Success, ReplyBodyView::Node(Embedded::EmptyObject)),
        CallOutcome::Replied(_) => reply(HttpStatus::Success, ReplyBodyView::Node(Embedded::NodeReply)),
    }
}

/// The reply of the wallet creation endpoint: the node's reply (`{}` where it
/// is not JSON), or a 500 where the call did not reach the node.
pub fn create_wallet_reply<T>(outcome: &CallOutcome<T>) -> (r: HttpReply)
    ensures
        r@ == create_wallet_reply_of(*outcome),
{
    match outcome {
        CallOutcome::SendFailed(_) => text_reply(HttpStatus::InternalServerError, "Failed to create wallet"),
        CallOutcome::Unreadable => node_reply(Embedded::EmptyObject),
        CallOutcome::Replied(_) => node_reply(Embedded::NodeReply),
    }
}

// ---------------------------------------------------------------- list_wallets

/// The texts among the items, in order.
pub open spec fn present_texts(items: Seq<Option<Seq<char>>>) -> Seq<Seq<char>>
    decreases items.len(),
{
    if items.len() == 0 {
        Seq::empty()
    } else {
        let rest = present_texts(items.drop_last());
        match items.last() {
            Some(s) => rest.push(s),
            None => rest,
        }
    }
}

/// The views of optional texts.
pub open spec fn opt_views(items: Seq<Option<String>>) -> Seq<Option<Seq<char>>> {
    items.map_values(|o: Option<String>| opt_view(o))
}

/// The views of texts.
pub open spec fn text_views(items: Seq<String>) -> Seq<Seq<char>> {
    items.map_values(|s: String| s@)
}

/// What the wallet listing makes of the `listlabels` call: the labels, or the
/// 500 that ends the listing. `Replied(Some(items))` holds, for each item of
/// the `result` array, the item if it is a string; `Replied(None)` stands for
/// a reply whose `result` is no array.
pub open spec fn labels_of(outcome: CallOutcome<Option<Vec<Option<String>>>>) -> Result<Seq<Seq<char>>, HttpReplyView> {
    match outcome {
        CallOutcome::SendFailed(_) => Err(reply(
            HttpStatus::InternalServerError,
            ReplyBodyView::Text("Failed to list wallets"@),
        )),
        CallOutcome::Unreadable => Err(reply(
            HttpStatus::InternalServerError,
            ReplyBodyView::Text("Invalid response from RPC server"@),
        )),
        CallOutcome::Replied(None) => Err(reply(
            HttpStatus::InternalServerError,
            ReplyBodyView::Text("Invalid response from RPC server"@),
        )),
        CallOutcome::Replied(Some(items)) => Ok(present_texts(opt_views(items@))),
    }
}

/// The labels to look up, in the order of the node's reply: the string items
/// of its `result` array; or the 500 that ends the listing.
pub fn list_wallets_labels(outcome: CallOutcome<Option<Vec<Option<String>>>>) -> (r: Result<Vec<String>, HttpReply>)
    ensures
        match (r, labels_of(outcome)) {
            (Ok(labels), Ok(expected)) => text_views(labels@) == expected,
            (Err(reply), Err(expected)) => reply@ == expected,
            _ => false,
        },
{
    match outcome {
        CallOutcome::SendFailed(_) => Err(text_reply(HttpStatus::InternalServerError, "Failed to list wallets")),
        CallOutcome::Unreadable => Err(text_reply(HttpStatus::InternalServerError, "Invalid response from RPC server")),
        CallOutcome::Replied(None) => Err(text_reply(HttpStatus::InternalServerError, "Invalid response from RPC server")),
        CallOutcome::Replied(Some(items)) => {
            let ghost all = opt_views(items@);
            let mut labels: Vec<String> = Vec::new();
            let mut i: usize = 0;
            while i < items.len()
                invariant
                    all == opt_views(items@),
                    i <= items@.len(),
                    text_views(labels@) == present_texts(all.take(i as int)),
                decreases items@.len() - i,
            {
                assert(all.take(i + 1).drop_last() =~= all.take(i as int));
                match &items[i] {
                    Some(s) => {
                        labels.push(s.clone());
                        assert(text_views(labels@) =~= present_texts(all.take(i as int)).push(s@));
                    },
                    None => {},
                }
                i = i + 1;
            }
            assert(all.take(items@.len() as int) =~= all);
            Ok(labels)
        },
    }
}

/// The entry that a `getaddressesbylabel` call adds to the listing:
/// `Replied(Some(keys))` holds the keys of the `result` object of the reply,
/// `Replied(None)` a reply whose `result` is no object. Calls that fail add
/// nothing.
pub open spec fn listing_entry(label: Seq<char>, outcome: CallOutcome<Option<Vec<String>>>) -> Option<LabelAddressesView> {
    match outcome {
        CallOutcome::Replied(Some(keys)) => Some(LabelAddressesView { label, addresses: text_views(keys@) }),
        _ => None,
    }
}

/// The views of listing entries.
pub open spec fn entry_views(entries: Seq<LabelAddresses>) -> Seq<LabelAddressesView> {
    entries.map_values(|e: LabelAddresses| e@)
}

/// Records the outcome of looking up the addresses of one label: the label
/// with its addresses is appended where the lookup gave an object; a failed
/// lookup is passed over.
pub fn list_wallets_add(entries: &mut Vec<LabelAddresses>, label: String, outcome: CallOutcome<Option<Vec<String>>>)
    ensures
        entry_views(final(entries)@) == match listing_entry(label@, outcome) {
            Some(e) => entry_views(old(entries)@).push(e),
            None => entry_views(old(entries)@),
        },
{
    let ghost label_view = label@;
    let ghost entry = listing_entry(label@, outcome);
    match outcome {
        CallOutcome::Replied(Some(keys)) => {
            entries.push(LabelAddresses { label, addresses: keys });
            assert(entry_views(entries@) =~= entry_views(old(entries)@).push(entry->0));
        },
        _ => {},
    }
}

/// The listing made of the labels and the outcomes of their lookups, taken
/// pairwise in order.
pub open spec fn wallet_listing(labels: Seq<Seq<char>>, outcomes: Seq<CallOutcome<Option<Vec<String>>>>) -> Seq<LabelAddressesView>
    decreases labels.len(),
{
    if labels.len() == 0 || outcomes.len() == 0 {
        Seq::empty()
    } else {
        let rest = wallet_listing(labels.drop_last(), outcomes.drop_last());
        match listing_entry(labels.last(), outcomes.last()) {
            Some(e) => rest.push(e),
            None => rest,
        }
    }
}

/// The listing of all labels: the labels are looked up in order and the
/// outcome of the lookup of `labels[i]` is `outcomes[i]`.
pub fn list_wallets_entries(labels: Vec<String>, outcomes: Vec<CallOutcome<Option<Vec<String>>>>) -> (r: Vec<LabelAddresses>)
    requires
        labels@.len() == outcomes@.len(),
    ensures
        entry_views(r@) == wallet_listing(text_views(labels@), outcomes@),
{
    let ghost all_labels = text_views(labels@);
    let ghost all_outcomes = outcomes@;
    let total = labels.len();
    assert(all_labels.len() == total);
    let mut entries: Vec<LabelAddresses> = Vec::new();
    let mut labels = labels;
    let mut outcomes = outcomes;
    // The pairs are taken from the back and put back in order at the end.
    let mut rev_labels: Vec<String> = Vec::new();
    let mut rev_outcomes: Vec<CallOutcome<Option<Vec<String>>>> = Vec::new();
    while labels.len() > 0
        invariant
            labels@.len() == outcomes@.len(),
            rev_labels@.len() == rev_outcomes@.len(),
            labels@.len() + rev_labels@.len() == all_labels.len(),
            all_labels.len() == all_outcomes.len(),
            all_labels.len() <= usize::MAX,
            text_views(labels@) == all_labels.take(labels@.len() as int),
            outcomes@ == all_outcomes.take(outcomes@.len() as int),
            forall|k: int| 0 <= k < rev_labels@.len() ==>
                #[trigger] rev_labels@[k]@ == all_labels[all_labels.len() - 1 - k],
            forall|k: int| 0 <= k < rev_outcomes@.len() ==>
                #[trigger] rev_outcomes@[k] == all_outcomes[all_outcomes.len() - 1 - k],
        decreases labels@.len(),
    {
        let ghost n = labels@.len();
        let l = labels.pop().unwrap();
        let o = outcomes.pop().unwrap();
        proof {
            assert(text_views(labels@) =~= all_labels.take(n - 1));
            assert(all_labels.take(n as int)[n - 1] == l@);
            assert(outcomes@ =~= all_outcomes.take(n - 1));
        }
        rev_labels.push(l);
        rev_outcomes.push(o);
    }
    let mut done: usize = 0;
    while rev_labels.len() > 0
        invariant
            rev_labels@.len() == rev_outcomes@.len(),
            rev_labels@.len() + done == all_labels.len(),
            all_labels.len() == all_outcomes.len(),
            all_labels.len() <= usize::MAX,
            forall|k: int| 0 <= k < rev_labels@.len() ==>
                #[trigger] rev_labels@[k]@ == all_labels[all_labels.len() - 1 - k],
            forall|k: int| 0 <= k < rev_outcomes@.len() ==>
                #[trigger] rev_outcomes@[k] == all_outcomes[all_outcomes.len() - 1 - k],
            entry_views(entries@) == wallet_listing(all_labels.take(done as int), all_outcomes.take(done as int)),
        decreases rev_labels@.len(),
    {
        let l = rev_labels.pop().unwrap();
        let o = rev_outcomes.pop().unwrap();
        proof {
            let next_l = all_labels.take(done + 1);
            let next_o = all_outcomes.take(done + 1);
            assert(next_l.drop_last() =~= all_labels.take(done as int));
            assert(next_o.drop_last() =~= all_outcomes.take(done as int));
            assert(next_l.last() == l@);
            assert(next_o.last() == o);
        }
        list_wallets_add(&mut entries, l, o);
        done = done + 1;
    }
    assert(all_labels.take(done as int) =~= all_labels);
    assert(all_outcomes.take(done as int) =~= all_outcomes);
    entries
}

/// Every lookup that replied with an object gives an entry of the listing,
/// and every entry of the listing comes from such a lookup.
pub proof fn lemma_listing_members(labels: Seq<Seq<char>>, outcomes: Seq<CallOutcome<Option<Vec<String>>>>)
    requires
        labels.len() == outcomes.len(),
    ensures
        forall|i: int| 0 <= i < labels.len() && (#[trigger] listing_entry(labels[i], outcomes[i])) is Some
            ==> wallet_listing(labels, outcomes).contains(listing_entry(labels[i], outcomes[i])->0),
        forall|e: LabelAddressesView| #[trigger] wallet_listing(labels, outcomes).contains(e)
            ==> exists|i: int| 0 <= i < labels.len() && listing_entry(labels[i], outcomes[i]) == Some(e),
        wallet_listing(labels, outcomes).len() <= labels.len(),
    decreases labels.len(),
{
    if labels.len() > 0 {
        let ls = labels.drop_last();
        let os = outcomes.drop_last();
        lemma_listing_members(ls, os);
        let rest = wallet_listing(ls, os);
        let whole = wallet_listing(labels, outcomes);
        let n = labels.len() - 1;
        assert forall|i: int| 0 <= i < labels.len() && (#[trigger] listing_entry(labels[i], outcomes[i])) is Some
            implies whole.contains(listing_entry(labels[i], outcomes[i])->0) by {
            if i < n {
                assert(ls[i] == labels[i] && os[i] == outcomes[i]);
                assert(listing_entry(ls[i], os[i]) is Some);
                let e = listing_entry(ls[i], os[i])->0;
                assert(rest.contains(e));
                let j = choose|j: int| 0 <= j < rest.len() && rest[j] == e;
                assert(whole[j] == e);
            } else {
                assert(whole[whole.len() - 1] == listing_entry(labels[i], outcomes[i])->0);
            }
        }
        assert forall|e: LabelAddressesView| #[trigger] whole.contains(e)
            implies exists|i: int| 0 <= i < labels.len() && listing_entry(labels[i], outcomes[i]) == Some(e) by {
            let j = choose|j: int| 0 <= j < whole.len() && whole[j] == e;
            if j < rest.len() {
                assert(rest.contains(e));
                let i = choose|i: int| 0 <= i < ls.len() && listing_entry(ls[i], os[i]) == Some(e);
                assert(ls[i] == labels[i] && os[i] == outcomes[i]);
            } else {
                assert(listing_entry(labels[n], outcomes[n]) == Some(e));
            }
        }
    }
}

/// The reply of the wallet listing: every label whose lookup succeeded, in
/// the order of the labels.
pub fn list_wallets_reply(entries: Vec<LabelAddresses>) -> (r: HttpReply)
    ensures
        r@ == reply(HttpStatus::Success, ReplyBodyView::Wallets(entry_views(entries@))),
{
    HttpReply { status: HttpStatus::Success, body: ReplyBody::Wallets(entries) }
}

// ---------------------------------------------------------------- get_wallet

/// The refusal of a wallet lookup without an address.
pub open spec fn missing_address_reply() -> HttpReplyView {
    reply(HttpStatus::BadRequest, ReplyBodyView::Error("É necessário fornecer o endereço da carteira."@))
}

/// The call of a wallet lookup: `listunspent` for the address; or, for the
/// empty address, the 400 that refuses the request before any call.
pub fn get_wallet_request(address: &str) -> (r: Result<RpcRequest, HttpReply>)
    ensures
        address@.len() == 0 ==> r is Err && r->Err_0@ == missing_address_reply(),
        address@.len() != 0 ==> r is Ok && r->Ok_0@ == call("getwallet"@, "listunspent"@, seq![
            RpcParamView::Count(1),
            RpcParamView::Count(9999999),
            RpcParamView::TextList(seq![address@]),
        ]),
{
    if address.is_empty() {
        Err(error_reply(HttpStatus::BadRequest, String::from_str("É necessário fornecer o endereço da carteira.")))
    } else {
        Ok(list_unspent_request("getwallet", address))
    }
}

/// What the service reads of one unspent output, its amount aside: its
/// `txid` if that is a string, and its `confirmations` if that is an unsigned
/// integer.
pub struct UtxoFacts {
    pub txid: Option<String>,
    pub confirmations: Option<u64>,
}

/// The summary of one unspent output: its txid (or the empty text) and its
/// confirmations (or 0).
pub open spec fn summary_of(u: UtxoFacts) -> TxSummaryView {
    TxSummaryView {
        txid: text_or_empty(opt_view(u.txid)),
        confirmations: match u.confirmations {
            Some(c) => c,
            None => 0,
        },
    }
}

/// The summaries of the unspent outputs, in their order.
pub fn wallet_transactions(utxos: &Vec<UtxoFacts>) -> (r: Vec<TxSummary>)
    ensures
        r@.map_values(|t: TxSummary| t@) == utxos@.map_values(|u: UtxoFacts| summary_of(u)),
{
    let mut r: Vec<TxSummary> = Vec::new();
    let mut i: usize = 0;
    while i < utxos.len()
        invariant
            i <= utxos@.len(),
            r@.len() == i,
            forall|k: int| 0 <= k < i ==> #[trigger] r@[k]@ == summary_of(utxos@[k]),
        decreases utxos@.len() - i,
    {
        let u = &utxos[i];
        let txid = match &u.txid {
            Some(t) => t.clone(),
            None => String::new(),
        };
        let confirmations = match u.confirmations {
            Some(c) => c,
            None => 0,
        };
        r.push(TxSummary { txid, confirmations });
        i = i + 1;
    }
    assert(r@.map_values(|t: TxSummary| t@) =~= utxos@.map_values(|u: UtxoFacts| summary_of(u)));
    r
}

/// The reply of a wallet lookup, given how `listunspent` went:
/// `Replied(Some(utxos))` holds what is read of each item of the `result`
/// array, `Replied(None)` stands for a reply whose `result` is no array.
pub open spec fn get_wallet_reply_of(address: Seq<char>, outcome: CallOutcome<Option<Vec<UtxoFacts>>>) -> HttpReplyView {
    match outcome {
        CallOutcome::SendFailed(e) => reply(
            HttpStatus::InternalServerError,
            ReplyBodyView::Error("Erro ao comunicar-se com o nó Bitcoin: "@ + e@),
        ),
        CallOutcome::Unreadable => reply(
            HttpStatus::InternalServerError,
            ReplyBodyView::Error("Erro ao processar a resposta do nó Bitcoin."@),
        ),
        CallOutcome::Replied(None) => reply(
            HttpStatus::InternalServerError,
            ReplyBodyView::Error("Erro ao processar a resposta do nó Bitcoin."@),
        ),
        CallOutcome::Replied(Some(utxos)) => reply(HttpStatus::Success, ReplyBodyView::Wallet {
            address,
            transactions: utxos@.map_values(|u: UtxoFacts| summary_of(u)),
        }),
    }
}

/// The reply of a wallet lookup: the address with a summary of each unspent
/// output, or a 500 that says whether the node was reached.
pub fn get_wallet_reply(address: String, outcome: CallOutcome<Option<Vec<UtxoFacts>>>) -> (r: HttpReply)
    ensures
        r@ == get_wallet_reply_of(address@, outcome),
{
    match outcome {
        CallOutcome::SendFailed(e) => {
            let message = join_text("Erro ao comunicar-se com o nó Bitcoin: ", e.as_str());
            error_reply(HttpStatus::InternalServerError, message)
        },
        CallOutcome::Unreadable => error_reply(
            HttpStatus::InternalServerError,
            String::from_str("Erro ao processar a resposta do nó Bitcoin."),
        ),
        CallOutcome::Replied(None) => error_reply(
            HttpStatus::InternalServerError,
            String::from_str("Erro ao processar a resposta do nó Bitcoin."),
        ),
        CallOutcome::Replied(Some(utxos)) => {
            let transactions = wallet_transactions(&utxos);
            HttpReply { status: HttpStatus::Success, body: ReplyBody::Wallet { address, transactions } }
        },
    }
}

/// The labels taken from a `listlabels` array are exactly its string items:
/// each string item is among them, each of them is a string item, and they
/// are no more than the items.
pub proof fn lemma_labels_are_string_items(items: Seq<Option<Seq<char>>>)
    ensures
        forall|i: int| 0 <= i < items.len() && (#[trigger] items[i]) is Some
            ==> present_texts(items).contains(items[i]->0),
        forall|s: Seq<char>| #[trigger] present_texts(items).contains(s)
            ==> exists|i: int| 0 <= i < items.len() && items[i] == Some(s),
        present_texts(items).len() <= items.len(),
    decreases items.len(),
{
    if items.len() > 0 {
        let rest_items = items.drop_last();
        lemma_labels_are_string_items(rest_items);
        let rest = present_texts(rest_items);
        let whole = present_texts(items);
        let n = items.len() - 1;
        assert forall|i: int| 0 <= i < items.len() && (#[trigger] items[i]) is Some
            implies whole.contains(items[i]->0) by {
            if i < n {
                assert(rest_items[i] == items[i]);
                assert(rest.contains(items[i]->0));
                let j = choose|j: int| 0 <= j < rest.len() && rest[j] == items[i]->0;
                assert(whole[j] == items[i]->0);
            } else {
                assert(whole[whole.len() - 1] == items[i]->0);
            }
        }
        assert forall|s: Seq<char>| #[trigger] whole.contains(s)
            implies exists|i: int| 0 <= i < items.len() && items[i] == Some(s) by {
            let j = choose|j: int| 0 <= j < whole.len() && whole[j] == s;
            if j < rest.len() {
                assert(rest.contains(s));
                let i = choose|i: int| 0 <= i < rest_items.len() && rest_items[i] == Some(s);
                assert(items[i] == rest_items[i]);
            } else {
                assert(items[n] == Some(s));
            }
        }
    }
}

/// The listing of wallets starts from exactly the string items of the
/// `listlabels` array: each string item is a label, each label is a string
/// item; a reply that failed or has no array ends the listing with a 500.
pub proof fn lemma_labels_of_reply(outcome: CallOutcome<Option<Vec<Option<String>>>>)
    ensures
        labels_of(outcome) is Ok <==> outcome matches CallOutcome::Replied(Some(_)),
        outcome matches CallOutcome::Replied(Some(items)) ==> ({
            let ls = labels_of(outcome)->Ok_0;
            &&& forall|i: int| 0 <= i < items@.len() && (#[trigger] items@[i]) is Some
                ==> ls.contains((items@[i]->0)@)
            &&& forall|l: Seq<char>| #[trigger] ls.contains(l)
                ==> exists|i: int| 0 <= i < items@.len() && items@[i] is Some && (items@[i]->0)@ == l
        }),
        !(outcome matches CallOutcome::Replied(Some(_))) ==> labels_of(outcome)->Err_0.status == HttpStatus::InternalServerError,
{
    if let CallOutcome::Replied(Some(items)) = outcome {
        let views = opt_views(items@);
        lemma_labels_are_string_items(views);
        let ls = labels_of(outcome)->Ok_0;
        assert forall|i: int| 0 <= i < items@.len() && (#[trigger] items@[i]) is Some
            implies ls.contains((items@[i]->0)@) by {
            assert(views[i] == Some((items@[i]->0)@));
        }
        assert forall|l: Seq<char>| #[trigger] ls.contains(l)
            implies exists|i: int| 0 <= i < items@.len() && items@[i] is Some && (items@[i]->0)@ == l by {
            let i = choose|i: int| 0 <= i < views.len() && views[i] == Some(l);
            assert(items@[i] is Some && (items@[i]->0)@ == l);
        }
    }
}

/// A label's lookup adds an entry exactly when the reply's `result` is an
/// object; the entry holds the label and every key of that object, in order.
pub proof fn lemma_listing_entry_keeps_keys(label: Seq<char>, outcome: CallOutcome<Option<Vec<String>>>)
    ensures
        listing_entry(label, outcome) is Some <==> outcome matches CallOutcome::Replied(Some(_)),
        outcome matches CallOutcome::Replied(Some(keys)) ==> ({
            let e = listing_entry(label, outcome)->0;
            &&& e.label == label
            &&& e.addresses.len() == keys@.len()
            &&& forall|k: int| 0 <= k < keys@.len() ==> e.addresses[k] == (#[trigger] keys@[k])@
        }),
{
}

/// Wallet creation answers 200 unless the call failed to reach the node; a
/// JSON reply (the new address) is forwarded, `{}` stands only for a reply
/// that is not JSON.
pub proof fn lemma_create_wallet_forwards_reply<T>(outcome: CallOutcome<T>)
    ensures
        (create_wallet_reply_of(outcome).status == HttpStatus::Success) <==> !(outcome is SendFailed),
        outcome is Replied ==> create_wallet_reply_of(outcome).body == ReplyBodyView::Node(Embedded::NodeReply),
        outcome is Unreadable ==> create_wallet_reply_of(outcome).body == ReplyBodyView::Node(Embedded::EmptyObject),
        outcome is SendFailed ==> create_wallet_reply_of(outcome)
            == reply(HttpStatus::InternalServerError, ReplyBodyView::Text("Failed to create wallet"@)),
{
}

/// A wallet lookup whose `result` is an array answers 200 with the address
/// and one summary per unspent output, in their order: the k-th carries the
/// k-th output's txid (or the empty text) and confirmations (or 0).
pub proof fn lemma_wallet_lists_every_output(address: Seq<char>, utxos: Vec<UtxoFacts>)
    ensures
        get_wallet_reply_of(address, CallOutcome::Replied(Some(utxos))).status == HttpStatus::Success,
        get_wallet_reply_of(address, CallOutcome::Replied(Some(utxos))).body matches ReplyBodyView::Wallet {
            address: a,
            transactions: ts,
        } && a == address && ts.len() == utxos@.len() && forall|k: int| 0 <= k < ts.len() ==> {
            &&& (#[trigger] ts[k]).txid == match utxos@[k].txid {
                Some(t) => t@,
                None => Seq::<char>::empty(),
            }
            &&& ts[k].confirmations == match utxos@[k].confirmations {
                Some(c) => c,
                None => 0u64,
            }
        },
{
}

/// A wallet lookup answers 200 exactly when the reply's `result` is an
/// array; a failure to reach the node reports the error's text.
pub proof fn lemma_wallet_failures(address: Seq<char>, outcome: CallOutcome<Option<Vec<UtxoFacts>>>)
    ensures
        (get_wallet_reply_of(address, outcome).status == HttpStatus::Success) <==> outcome matches CallOutcome::Replied(Some(_)),
        outcome matches CallOutcome::SendFailed(e) ==> get_wallet_reply_of(address, outcome).body
            == ReplyBodyView::Error("Erro ao comunicar-se com o nó Bitcoin: "@ + e@),
        (outcome is Unreadable || (outcome matches CallOutcome::Replied(None))) ==> get_wallet_reply_of(address, outcome)
            == reply(HttpStatus::InternalServerError, ReplyBodyView::Error("Erro ao processar a resposta do nó Bitcoin."@)),
{
}

} // verus!
