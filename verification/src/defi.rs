//! The chain signal: transactions of an address within the last 90 days.

use crate::decimal::{decimal_u64, parse_u64};
use crate::json::{
    items, json_items, json_member, json_parse, member, member_text, parse, text_member,
};
use crate::outcall::{response_text, success_text, HttpOutcome, OutcallRequest, STATUS_OK};
use serde_json::Value;
use vstd::prelude::*;
use vstd::string::*;
use vstd::utf8::valid_utf8;

verus! {

/// The nanoseconds in a second.
pub const NANOS_PER_SECOND: u64 = 1_000_000_000;

/// The seconds in 90 days: the window within which a transaction counts.
pub const WINDOW_SECONDS: u64 = 7_776_000;

/// What one reading of an address's transactions yields.
pub struct DefiSignal {
    /// The transactions within the window.
    pub tx_count: u64,
    /// Always empty: nothing of the response is passed on.
    pub detail: String,
}

/// A `DefiSignal` as mathematical values.
pub ghost struct DefiSignalView {
    pub tx_count: nat,
    pub detail: Seq<char>,
}

impl View for DefiSignal {
    type V = DefiSignalView;

    open spec fn view(&self) -> DefiSignalView {
        DefiSignalView { tx_count: self.tx_count as nat, detail: self.detail@ }
    }
}

/// The signal of `count` transactions.
pub open spec fn signal_of_count(count: nat) -> DefiSignalView {
    DefiSignalView { tx_count: count, detail: Seq::empty() }
}

/// The earliest time, in seconds, that still counts at `now_nanos`: 90 days
/// before it, and zero where the clock has not run that long.
pub open spec fn cutoff_at(now_nanos: u64) -> u64 {
    let now_seconds = now_nanos / NANOS_PER_SECOND;
    if now_seconds >= WINDOW_SECONDS {
        (now_seconds - WINDOW_SECONDS) as u64
    } else {
        0
    }
}

/// The time of a transaction: the number that the string under `timeStamp`
/// spells, in seconds.
pub open spec fn tx_time(tx: Value) -> Option<u64> {
    match member_text(tx, "timeStamp"@) {
        Some(stamp) => decimal_u64(stamp),
        None => None,
    }
}

/// Whether a transaction has a time, and one not before `cutoff`.
pub open spec fn is_recent(tx: Value, cutoff: u64) -> bool {
    match tx_time(tx) {
        Some(time) => time >= cutoff,
        None => false,
    }
}

/// The transactions among `txs` that are not before `cutoff`.
pub open spec fn recent_count(txs: Seq<Value>, cutoff: u64) -> nat {
    txs.filter(|tx: Value| is_recent(tx, cutoff)).len()
}

/// The transactions of a document: the array under `result`.
pub open spec fn document_txs(document: Value) -> Option<Seq<Value>> {
    match json_member(document, "result"@) {
        Some(result) => json_items(result),
        None => None,
    }
}

/// The signal in a document: the count of its recent transactions, and zero
/// where it lists none.
pub open spec fn signal_of_document(document: Value, cutoff: u64) -> DefiSignalView {
    match document_txs(document) {
        Some(txs) => signal_of_count(recent_count(txs, cutoff)),
        None => signal_of_count(0),
    }
}

/// The signal in a response text: that of the document it parses to, zero
/// where it parses to none.
pub open spec fn signal_of_text(body: Seq<char>, cutoff: u64) -> DefiSignalView {
    match json_parse(body) {
        Some(document) => signal_of_document(document, cutoff),
        None => signal_of_count(0),
    }
}

/// The signal in the outcome of a request at the time `now_nanos`: that of
/// the text of a success, zero for every failure.
pub open spec fn signal_of_outcome(outcome: HttpOutcome, now_nanos: u64) -> DefiSignalView {
    match success_text(outcome) {
        Some(body) => signal_of_text(body, cutoff_at(now_nanos)),
        None => signal_of_count(0),
    }
}

/// Every outcome but an answer with status 200 and a body in UTF-8 gives no
/// transactions.
pub proof fn failure_is_zero(outcome: HttpOutcome, now_nanos: u64)
    requires
        !(outcome matches HttpOutcome::Response { status, body } && status == STATUS_OK
            && valid_utf8(body@)),
    ensures
        signal_of_outcome(outcome, now_nanos) == signal_of_count(0),
{
}

/// Whatever the outcome, nothing of the response is passed on as detail.
pub proof fn detail_is_always_empty(outcome: HttpOutcome, now_nanos: u64)
    ensures
        signal_of_outcome(outcome, now_nanos).detail == Seq::<char>::empty(),
{
}

/// No more transactions count than the response lists.
pub proof fn recent_are_among_all(txs: Seq<Value>, cutoff: u64)
    ensures
        recent_count(txs, cutoff) <= txs.len(),
{
    txs.lemma_filter_len(|tx: Value| is_recent(tx, cutoff));
}

/// The address of the transaction list of an account.
pub open spec fn txlist_url(address: Seq<char>) -> Seq<char> {
    "https://api.etherscan.io/api?module=account&action=txlist&address="@ + address
        + "&startblock=0&endblock=99999999&sort=asc&apikey="@ + "ETHERSCAN_API_KEY"@
}

/// The request for the transactions of `address`.
pub fn txlist_request(address: &str) -> (r: OutcallRequest)
    ensures
        r.is_get(txlist_url(address@), "application/json"@),
{
    let mut url = String::from_str(
        "https://api.etherscan.io/api?module=account&action=txlist&address=",
    );
    url.append(address);
    url.append("&startblock=0&endblock=99999999&sort=asc&apikey=");
    url.append("ETHERSCAN_API_KEY");
    OutcallRequest::get(url, "application/json")
}

/// The signal of `count` transactions.
pub fn counted(count: u64) -> (r: DefiSignal)
    ensures
        r@ == signal_of_count(count as nat),
{
    DefiSignal { tx_count: count, detail: String::new() }
}

/// The earliest time, in seconds, that still counts at `now_nanos`.
pub fn cutoff_seconds(now_nanos: u64) -> (r: u64)
    ensures
        r == cutoff_at(now_nanos),
{
    (now_nanos / NANOS_PER_SECOND).saturating_sub(WINDOW_SECONDS)
}

/// Whether a transaction has a time, and one not before `cutoff`.
pub fn recent(tx: &Value, cutoff: u64) -> (r: bool)
    ensures
        r == is_recent(*tx, cutoff),
{
    match text_member(tx, "timeStamp") {
        Some(stamp) => match parse_u64(stamp) {
            Some(time) => time >= cutoff,
            None => false,
        },
        None => false,
    }
}

/// The transactions among `txs` that are not before `cutoff`.
pub fn count_recent(txs: &Vec<Value>, cutoff: u64) -> (r: u64)
    ensures
        r == recent_count(txs@, cutoff),
{
    let n = txs.len();
    let ghost keep = |tx: Value| is_recent(tx, cutoff);
    let mut count: u64 = 0;
    let mut i: usize = 0;
    proof {
        reveal(Seq::filter);
    }
    while i < n
        invariant
            i <= n,
            n == txs@.len(),
            keep == |tx: Value| is_recent(tx, cutoff),
            count == txs@.take(i as int).filter(keep).len(),
            count <= i,
        decreases n - i,
    {
        proof {
            reveal(Seq::filter);
            assert(txs@.take(i + 1).drop_last() =~= txs@.take(i as int));
        }
        if recent(&txs[i], cutoff) {
            count += 1;
        }
        i += 1;
    }
    assert(txs@.take(n as int) =~= txs@);
    count
}

/// Reads the signal out of a parsed document.
pub fn signal_from_document(document: &Value, cutoff: u64) -> (r: DefiSignal)
    ensures
        r@ == signal_of_document(*document, cutoff),
{
    let result = match member(document, "result") {
        Some(result) => result,
        None => {
            return counted(0);
        },
    };
    match items(result) {
        Some(txs) => counted(count_recent(txs, cutoff)),
        None => counted(0),
    }
}

/// Reads the signal out of the text of a response.
pub fn signal_from_text(body: &str, cutoff: u64) -> (r: DefiSignal)
    ensures
        r@ == signal_of_text(body@, cutoff),
{
    match parse(body) {
        Some(document) => signal_from_document(&document, cutoff),
        None => counted(0),
    }
}

/// Reads the signal out of the outcome of the transaction-list request, at
/// the time `now_nanos` in nanoseconds. Every failure gives zero.
pub fn signal_from_outcome(outcome: HttpOutcome, now_nanos: u64) -> (r: DefiSignal)
    ensures
        r@ == signal_of_outcome(outcome, now_nanos),
{
    match response_text(outcome) {
        Some(body) => signal_from_text(body.as_str(), cutoff_seconds(now_nanos)),
        None => counted(0),
    }
}

} // verus!
