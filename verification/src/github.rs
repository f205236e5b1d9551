//! The code-host signal: commits pushed, read from a user's public events.

use crate::json::{
    items, json_items, json_member, json_parse, member, member_text, parse, text_member,
};
use crate::outcall::{response_text, success_text, HttpOutcome, OutcallRequest, STATUS_OK};
use crate::text::text_equal;
use serde_json::Value;
use vstd::prelude::*;
use vstd::string::*;
use vstd::utf8::valid_utf8;

verus! {

/// What one reading of a user's public events yields.
pub struct GithubSignal {
    /// The commits in all push events, capped at the largest `u64`.
    pub commit_count: u64,
    /// Always zero: stars are not computed.
    pub stars: u64,
    /// The repository of the first push event, or the empty text.
    pub recent_repo: String,
    /// The creation time of the first push event, or the empty text.
    pub recent_date: String,
}

/// A `GithubSignal` as mathematical values.
pub ghost struct GithubSignalView {
    pub commit_count: nat,
    pub stars: nat,
    pub recent_repo: Seq<char>,
    pub recent_date: Seq<char>,
}

impl View for GithubSignal {
    type V = GithubSignalView;

    open spec fn view(&self) -> GithubSignalView {
        GithubSignalView {
            commit_count: self.commit_count as nat,
            stars: self.stars as nat,
            recent_repo: self.recent_repo@,
            recent_date: self.recent_date@,
        }
    }
}

/// The signal of no activity, which is also that of every failure.
pub open spec fn neutral_signal() -> GithubSignalView {
    GithubSignalView {
        commit_count: 0,
        stars: 0,
        recent_repo: Seq::empty(),
        recent_date: Seq::empty(),
    }
}

/// A text that may be missing, with the empty text in its place.
pub open spec fn text_or_empty(t: Option<Seq<char>>) -> Seq<char> {
    match t {
        Some(s) => s,
        None => Seq::empty(),
    }
}

/// Whether an event is a push: its `type` is the string `PushEvent`.
pub open spec fn is_push_event(event: Value) -> bool {
    member_text(event, "type"@) == Some("PushEvent"@)
}

/// The commits that an event lists: the length of the array under
/// `payload.commits`, and zero where there is no such array.
pub open spec fn event_commits(event: Value) -> nat {
    match json_member(event, "payload"@) {
        Some(payload) => match json_member(payload, "commits"@) {
            Some(commits) => match json_items(commits) {
                Some(list) => list.len(),
                None => 0,
            },
            None => 0,
        },
        None => 0,
    }
}

/// The commits of all push events among `events`.
pub open spec fn push_commits(events: Seq<Value>) -> nat
    decreases events.len(),
{
    if events.len() == 0 {
        0
    } else {
        push_commits(events.drop_last()) + if is_push_event(events.last()) {
            event_commits(events.last())
        } else {
            0
        }
    }
}

/// The first push event among `events`.
pub open spec fn first_push(events: Seq<Value>) -> Option<Value>
    decreases events.len(),
{
    if events.len() == 0 {
        None
    } else if is_push_event(events[0]) {
        Some(events[0])
    } else {
        first_push(events.drop_first())
    }
}

/// The name of the repository that an event names under `repo.name`, or the
/// empty text.
pub open spec fn event_repo(event: Value) -> Seq<char> {
    match json_member(event, "repo"@) {
        Some(repo) => text_or_empty(member_text(repo, "name"@)),
        None => Seq::empty(),
    }
}

/// The creation time that an event gives under `created_at`, or the empty
/// text.
pub open spec fn event_date(event: Value) -> Seq<char> {
    text_or_empty(member_text(event, "created_at"@))
}

/// A count as a `u64`, capped at the largest one.
pub open spec fn capped(n: nat) -> u64 {
    if n <= u64::MAX {
        n as u64
    } else {
        u64::MAX
    }
}

/// The signal in a list of events: all commits of its push events, and the
/// repository and time of the first of them.
pub open spec fn signal_of_events(events: Seq<Value>) -> GithubSignalView {
    GithubSignalView {
        commit_count: capped(push_commits(events)) as nat,
        stars: 0,
        recent_repo: match first_push(events) {
            Some(e) => event_repo(e),
            None => Seq::empty(),
        },
        recent_date: match first_push(events) {
            Some(e) => event_date(e),
            None => Seq::empty(),
        },
    }
}

/// The signal in a document: that of its events where it is an array, the
/// neutral one otherwise.
pub open spec fn signal_of_document(document: Value) -> GithubSignalView {
    match json_items(document) {
        Some(events) => signal_of_events(events),
        None => neutral_signal(),
    }
}

/// The signal in a response text: that of the document it parses to, the
/// neutral one where it parses to none.
pub open spec fn signal_of_text(body: Seq<char>) -> GithubSignalView {
    match json_parse(body) {
        Some(document) => signal_of_document(document),
        None => neutral_signal(),
    }
}

/// The signal in the outcome of a request: that of the text of a success,
/// the neutral one for every failure.
pub open spec fn signal_of_outcome(outcome: HttpOutcome) -> GithubSignalView {
    match success_text(outcome) {
        Some(body) => signal_of_text(body),
        None => neutral_signal(),
    }
}

/// Every outcome but an answer with status 200 and a body in UTF-8 gives the
/// neutral signal: no commits, no stars, and empty texts.
pub proof fn failure_is_neutral(outcome: HttpOutcome)
    requires
        !(outcome matches HttpOutcome::Response { status, body } && status == STATUS_OK
            && valid_utf8(body@)),
    ensures
        signal_of_outcome(outcome) == neutral_signal(),
{
}

/// Whatever the outcome, no stars are reported, and the commits fit in 64
/// bits.
pub proof fn stars_are_never_counted(outcome: HttpOutcome)
    ensures
        signal_of_outcome(outcome).stars == 0,
        signal_of_outcome(outcome).commit_count <= u64::MAX,
{
}

/// The address of a user's public events.
pub open spec fn events_url(handle: Seq<char>) -> Seq<char> {
    "https://api.github.com/users/"@ + handle + "/events/public"@
}

/// The request for the public events of `handle`.
pub fn events_request(handle: &str) -> (r: OutcallRequest)
    ensures
        r.is_get(events_url(handle@), "application/vnd.github.v3+json"@),
{
    let mut url = String::from_str("https://api.github.com/users/");
    url.append(handle);
    url.append("/events/public");
    OutcallRequest::get(url, "application/vnd.github.v3+json")
}

/// The signal of no activity.
pub fn neutral() -> (r: GithubSignal)
    ensures
        r@ == neutral_signal(),
{
    GithubSignal {
        commit_count: 0,
        stars: 0,
        recent_repo: String::new(),
        recent_date: String::new(),
    }
}

fn owned_or_empty(t: Option<&str>) -> (r: String)
    ensures
        r@ == match t {
            Some(s) => s@,
            None => Seq::<char>::empty(),
        },
{
    match t {
        Some(s) => String::from_str(s),
        None => String::new(),
    }
}

/// Whether an event is a push.
pub fn is_push(event: &Value) -> (r: bool)
    ensures
        r == is_push_event(*event),
{
    match text_member(event, "type") {
        Some(kind) => text_equal(kind, "PushEvent"),
        None => false,
    }
}

/// The commits that an event lists.
pub fn commits_of(event: &Value) -> (r: usize)
    ensures
        r == event_commits(*event),
{
    let payload = match member(event, "payload") {
        Some(p) => p,
        None => {
            return 0;
        },
    };
    let commits = match member(payload, "commits") {
        Some(c) => c,
        None => {
            return 0;
        },
    };
    match items(commits) {
        Some(list) => list.len(),
        None => 0,
    }
}

/// The commits of all push events among `events`, capped at the largest
/// `u64`.
pub fn count_push_commits(events: &Vec<Value>) -> (r: u64)
    ensures
        r == capped(push_commits(events@)),
{
    let n = events.len();
    let mut total: u64 = 0;
    let mut i: usize = 0;
    while i < n
        invariant
            i <= n,
            n == events@.len(),
            total == capped(push_commits(events@.take(i as int))),
        decreases n - i,
    {
        assert(events@.take(i + 1).drop_last() =~= events@.take(i as int));
        if is_push(&events[i]) {
            total = total.saturating_add(commits_of(&events[i]) as u64);
        }
        i += 1;
    }
    assert(events@.take(n as int) =~= events@);
    total
}

/// The first push event among `events`.
pub fn find_first_push(events: &Vec<Value>) -> (r: Option<&Value>)
    ensures
        match r {
            Some(e) => first_push(events@) == Some(*e),
            None => first_push(events@) is None,
        },
{
    let n = events.len();
    let mut i: usize = 0;
    assert(events@.skip(0) =~= events@);
    while i < n
        invariant
            i <= n,
            n == events@.len(),
            first_push(events@) == first_push(events@.skip(i as int)),
        decreases n - i,
    {
        if is_push(&events[i]) {
            return Some(&events[i]);
        }
        assert(events@.skip(i as int).drop_first() =~= events@.skip(i + 1));
        i += 1;
    }
    None
}

/// Reads the signal out of a list of events.
pub fn signal_from_events(events: &Vec<Value>) -> (r: GithubSignal)
    ensures
        r@ == signal_of_events(events@),
{
    let commit_count = count_push_commits(events);
    match find_first_push(events) {
        Some(event) => {
            let repo = match member(event, "repo") {
                Some(repo) => owned_or_empty(text_member(repo, "name")),
                None => String::new(),
            };
            let date = owned_or_empty(text_member(event, "created_at"));
            GithubSignal { commit_count, stars: 0, recent_repo: repo, recent_date: date }
        },
        None => GithubSignal {
            commit_count,
            stars: 0,
            recent_repo: String::new(),
            recent_date: String::new(),
        },
    }
}

/// Reads the signal out of a parsed document.
pub fn signal_from_document(document: &Value) -> (r: GithubSignal)
    ensures
        r@ == signal_of_document(*document),
{
    match items(document) {
        Some(events) => signal_from_events(events),
        None => neutral(),
    }
}

/// Reads the signal out of the text of a response.
pub fn signal_from_text(body: &str) -> (r: GithubSignal)
    ensures
        r@ == signal_of_text(body@),
{
    match parse(body) {
        Some(document) => signal_from_document(&document),
        None => neutral(),
    }
}

/// Reads the signal out of the outcome of the events request. Every failure
/// gives the neutral signal.
pub fn signal_from_outcome(outcome: HttpOutcome) -> (r: GithubSignal)
    ensures
        r@ == signal_of_outcome(outcome),
{
    match response_text(outcome) {
        Some(body) => signal_from_text(body.as_str()),
        None => neutral(),
    }
}

} // verus!
