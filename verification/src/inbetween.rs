//! The in-between man: each request to the socket server is sent as
//! `id|payload`, and each `id|reply` that comes back is handed to the sender
//! that is waiting for that id. The mock server answers `id|payload` with
//! `id|mock reply to: payload`.
use vstd::prelude::*;
use vstd::string::StringExecFns;
use std::collections::HashMap;
use crate::text::{decimal, digit_char, push_char, u64_to_decimal};

verus! {

broadcast use vstd::std_specs::hash::group_hash_axioms;

/// `k` is the position of the first `sep` in `s`.
pub open spec fn first_sep(s: Seq<char>, sep: char, k: int) -> bool {
    &&& 0 <= k < s.len()
    &&& s[k] == sep
    &&& forall|j: int| 0 <= j < k ==> s[j] != sep
}

/// `s` cut at its first `sep` into the part before and the part after it,
/// as `str::split_once` cuts it; `None` when `s` holds no `sep`.
pub open spec fn split_once(s: Seq<char>, sep: char) -> Option<(Seq<char>, Seq<char>)> {
    if exists|k: int| first_sep(s, sep, k) {
        let k = choose|k: int| first_sep(s, sep, k);
        Some((s.take(k), s.skip(k + 1)))
    } else {
        None
    }
}

pub open spec fn is_digit(c: char) -> bool {
    '0' <= c && c <= '9'
}

pub open spec fn digit_value(c: char) -> int {
    c as int - '0' as int
}

/// The number that a string of decimal digits writes.
pub open spec fn digits_value(s: Seq<char>) -> int
    decreases s.len(),
{
    if s.len() == 0 {
        0
    } else {
        digits_value(s.drop_last()) * 10 + digit_value(s.last())
    }
}

/// `s` without its leading `+`, if it has one.
pub open spec fn unsigned_digits(s: Seq<char>) -> Seq<char> {
    if s.len() > 0 && s[0] == '+' { s.skip(1) } else { s }
}

pub open spec fn all_digits(s: Seq<char>) -> bool {
    forall|i: int| 0 <= i < s.len() ==> is_digit(#[trigger] s[i])
}

/// What `str::parse::<u64>` reads from `s`: an optional `+`, then one or more
/// decimal digits whose value fits in a `u64`.
pub open spec fn parse_u64(s: Seq<char>) -> Option<u64> {
    let digits = unsigned_digits(s);
    if digits.len() > 0 && all_digits(digits) && digits_value(digits) <= u64::MAX {
        Some(digits_value(digits) as u64)
    } else {
        None
    }
}

/// The text sent for a request: its id in decimal, `|`, then the payload.
pub open spec fn frame_text(id: u64, payload: Seq<char>) -> Seq<char> {
    decimal(id as nat) + seq!['|'] + payload
}

/// The mock server's answer to a text.
pub open spec fn mock_reply_text(msg: Seq<char>) -> Seq<char> {
    match split_once(msg, '|') {
        Some((id, payload)) => id + seq!['|'] + "mock reply to: "@ + payload,
        None => "mock reply to: "@ + msg,
    }
}

/// The id and payload of a text received from the server, when it has that form.
pub open spec fn parse_frame(text: Seq<char>) -> Option<(u64, Seq<char>)> {
    match split_once(text, '|') {
        Some((id_text, payload)) => match parse_u64(id_text) {
            Some(id) => Some((id, payload)),
            None => None,
        },
        None => None,
    }
}

proof fn lemma_first_sep_unique(s: Seq<char>, sep: char, k1: int, k2: int)
    requires
        first_sep(s, sep, k1),
        first_sep(s, sep, k2),
    ensures
        k1 == k2,
{
    if k1 < k2 {
        assert(s[k1] != sep);
    } else if k2 < k1 {
        assert(s[k2] != sep);
    }
}

proof fn lemma_split_once_at(s: Seq<char>, sep: char, k: int)
    requires
        first_sep(s, sep, k),
    ensures
        split_once(s, sep) == Some((s.take(k), s.skip(k + 1))),
{
    let c = choose|k: int| first_sep(s, sep, k);
    lemma_first_sep_unique(s, sep, c, k);
}

/// Finds the first `sep` in `s`.
fn find_sep(s: &str, sep: char) -> (k: Option<usize>)
    ensures
        match k {
            Some(k) => first_sep(s@, sep, k as int),
            None => forall|j: int| 0 <= j < s@.len() ==> s@[j] != sep,
        },
{
    broadcast use vstd::string::group_string_axioms;
    let n = s.unicode_len();
    let mut i: usize = 0;
    for c in it: s.chars()
        invariant
            it.seq() == s@,
            n == s@.len(),
            i == it.index(),
            forall|j: int| 0 <= j < i ==> s@[j] != sep,
    {
        if c == sep {
            return Some(i);
        }
        i = i + 1;
    }
    None
}

/// Cuts `s` at its first `sep`, as `str::split_once` does.
pub fn split_once_at(s: &str, sep: char) -> (parts: Option<(String, String)>)
    ensures
        match parts {
            Some((a, b)) => split_once(s@, sep) == Some((a@, b@)),
            None => split_once(s@, sep) is None,
        },
{
    match find_sep(s, sep) {
        Some(k) => {
            proof {
                lemma_split_once_at(s@, sep, k as int);
            }
            let n = s.unicode_len();
            let before = String::from_str(s.substring_char(0, k));
            let after = String::from_str(s.substring_char(k + 1, n));
            assert(s@.subrange(k + 1, n as int) =~= s@.skip(k + 1));
            assert(s@.subrange(0, k as int) =~= s@.take(k as int));
            Some((before, after))
        },
        None => {
            assert(!exists|k: int| first_sep(s@, sep, k));
            None
        },
    }
}

proof fn lemma_digits_value_grows(s: Seq<char>, i: int)
    requires
        0 <= i <= s.len(),
        forall|j: int| 0 <= j < s.len() ==> is_digit(#[trigger] s[j]),
    ensures
        digits_value(s.take(i)) <= digits_value(s),
        digits_value(s) >= 0,
    decreases s.len() - i,
{
    if i < s.len() {
        lemma_digits_value_grows(s, i + 1);
        assert(s.take(i + 1).drop_last() =~= s.take(i));
        assert(is_digit(s[i]));
        lemma_digits_value_nonneg(s.take(i));
    } else {
        assert(s.take(i) =~= s);
        lemma_digits_value_nonneg(s);
    }
}

proof fn lemma_digits_value_nonneg(s: Seq<char>)
    requires
        forall|j: int| 0 <= j < s.len() ==> is_digit(#[trigger] s[j]),
    ensures
        digits_value(s) >= 0,
    decreases s.len(),
{
    if s.len() > 0 {
        lemma_digits_value_nonneg(s.drop_last());
        assert(is_digit(s[s.len() - 1]));
    }
}

/// Reads a `u64` from `s` as `str::parse::<u64>` does.
pub fn parse_u64_text(s: &str) -> (v: Option<u64>)
    ensures
        v == parse_u64(s@),
{
    let n = s.unicode_len();
    let start: usize = if n > 0 && s.get_char(0) == '+' { 1 } else { 0 };
    let ghost digits = unsigned_digits(s@);
    assert(digits =~= s@.skip(start as int));
    if start == n {
        return None;
    }
    let mut value: u64 = 0;
    let mut i: usize = start;
    while i < n
        invariant
            n == s@.len(),
            start <= i <= n,
            digits =~= s@.skip(start as int),
            digits == unsigned_digits(s@),
            forall|j: int| 0 <= j < i - start ==> is_digit(#[trigger] digits[j]),
            value as int == digits_value(digits.take(i - start)),
        decreases n - i,
    {
        let c = s.get_char(i);
        assert(digits[i - start] == c);
        if !('0' <= c && c <= '9') {
            assert(!is_digit(digits[i - start]));
            assert(parse_u64(s@) is None);
            return None;
        }
        let d = (c as u32 - '0' as u32) as u64;
        assert(digits.take(i - start + 1).drop_last() =~= digits.take(i - start));
        if value > (u64::MAX - d) / 10 {
            proof {
                assert(digits_value(digits.take(i - start + 1)) > u64::MAX) by (nonlinear_arith)
                    requires
                        digits_value(digits.take(i - start + 1)) == value * 10 + d,
                        value > (u64::MAX - d) / 10,
                        d < 10,
                ;
                if all_digits(digits) {
                    lemma_digits_value_grows(digits, i - start + 1);
                    assert(digits_value(digits) > u64::MAX);
                }
                assert(parse_u64(s@) is None);
            }
            return None;
        }
        assert(value * 10 + d <= u64::MAX) by (nonlinear_arith)
            requires
                value <= (u64::MAX - d) / 10,
                d < 10,
        ;
        value = value * 10 + d;
        i = i + 1;
    }
    assert(digits.take(n - start) =~= digits);
    Some(value)
}

proof fn lemma_digit_char(d: nat)
    requires
        d < 10,
    ensures
        is_digit(digit_char(d)),
        digit_value(digit_char(d)) == d,
        digit_char(d) != '|',
        digit_char(d) != '+',
{
}

/// The decimal notation of a number is a non-empty string of digits that reads back as the number.
proof fn lemma_decimal_reads_back(n: nat)
    ensures
        decimal(n).len() > 0,
        all_digits(decimal(n)),
        digits_value(decimal(n)) == n,
        decimal(n)[0] != '+',
    decreases n,
{
    if n < 10 {
        lemma_digit_char(n);
        assert(decimal(n).drop_last() =~= Seq::<char>::empty());
        assert(digits_value(Seq::<char>::empty()) == 0);
        assert(digits_value(decimal(n)) == n);
    } else {
        lemma_decimal_reads_back(n / 10);
        lemma_digit_char(n % 10);
        let d = decimal(n);
        assert(d.drop_last() =~= decimal(n / 10));
        assert(d.last() == digit_char(n % 10));
        assert(d[0] == decimal(n / 10)[0]);
        assert(digits_value(d) == digits_value(decimal(n / 10)) * 10 + digit_value(digit_char(n % 10)));
        assert((n / 10) * 10 + n % 10 == n);
    }
}

/// Cutting `a | rest` at its first `|`, where `a` holds no `|`, gives `a` and `rest`.
proof fn lemma_split_after(a: Seq<char>, rest: Seq<char>, sep: char)
    requires
        forall|j: int| 0 <= j < a.len() ==> a[j] != sep,
    ensures
        split_once(a + seq![sep] + rest, sep) == Some((a, rest)),
{
    let s = a + seq![sep] + rest;
    assert(first_sep(s, sep, a.len() as int));
    lemma_split_once_at(s, sep, a.len() as int);
    assert(s.take(a.len() as int) =~= a);
    assert(s.skip(a.len() + 1int) =~= rest);
}

proof fn lemma_frame_parts(id: u64, payload: Seq<char>)
    ensures
        split_once(frame_text(id, payload), '|') == Some((decimal(id as nat), payload)),
        parse_u64(decimal(id as nat)) == Some(id),
{
    lemma_decimal_reads_back(id as nat);
    let d = decimal(id as nat);
    assert forall|j: int| 0 <= j < d.len() implies d[j] != '|' by {
        assert(is_digit(d[j]));
    }
    lemma_split_after(d, payload, '|');
    assert(unsigned_digits(d) == d);
}

/// A framed request reads back as its id and payload.
pub proof fn law_frame_reads_back(id: u64, payload: Seq<char>)
    ensures
        parse_frame(frame_text(id, payload)) == Some((id, payload)),
{
    lemma_frame_parts(id, payload);
}

/// The mock server answers under the id of the request it answers.
pub proof fn law_mock_reply_keeps_id(id: u64, payload: Seq<char>)
    ensures
        parse_frame(mock_reply_text(frame_text(id, payload))) == Some((id, "mock reply to: "@ + payload)),
{
    lemma_frame_parts(id, payload);
    lemma_decimal_reads_back(id as nat);
    let d = decimal(id as nat);
    assert forall|j: int| 0 <= j < d.len() implies d[j] != '|' by {
        assert(is_digit(d[j]));
    }
    let reply = d + seq!['|'] + "mock reply to: "@ + payload;
    assert(reply =~= d + seq!['|'] + ("mock reply to: "@ + payload));
    lemma_split_after(d, "mock reply to: "@ + payload, '|');
}

/// The text to send for a request: `id|payload`.
pub fn frame(id: u64, payload: &str) -> (text: String)
    ensures
        text@ == frame_text(id, payload@),
{
    let mut text = u64_to_decimal(id);
    push_char(&mut text, '|');
    text.append(payload);
    text
}

/// The mock server's answer: `id|mock reply to: payload` for `id|payload`,
/// and `mock reply to: msg` for a text without `|`.
pub fn mock_reply(msg: &str) -> (reply: String)
    ensures
        reply@ == mock_reply_text(msg@),
{
    match split_once_at(msg, '|') {
        Some((id, payload)) => {
            let mut reply = id;
            push_char(&mut reply, '|');
            reply.append("mock reply to: ");
            reply.append(payload.as_str());
            assert(reply@ =~= mock_reply_text(msg@));
            reply
        },
        None => {
            let mut reply = String::from_str("mock reply to: ");
            reply.append(msg);
            reply
        },
    }
}

/// The id and payload of a text from the server, when it is `id|payload` with a
/// decimal `id` that fits in a `u64`.
pub fn read_frame(text: &str) -> (parts: Option<(u64, String)>)
    ensures
        match parts {
            Some((id, payload)) => parse_frame(text@) == Some((id, payload@)),
            None => parse_frame(text@) is None,
        },
{
    match split_once_at(text, '|') {
        Some((id_text, payload)) => match parse_u64_text(id_text.as_str()) {
            Some(id) => Some((id, payload)),
            None => None,
        },
        None => None,
    }
}

/// Where a text from the server goes: the sender waiting for its id, with its
/// payload; nowhere when it is not `id|payload` or nobody waits for that id.
pub open spec fn routed<S>(waiting: Map<u64, S>, text: Seq<char>) -> Option<(S, Seq<char>)> {
    match parse_frame(text) {
        Some((id, payload)) => if waiting.contains_key(id) {
            Some((waiting[id], payload))
        } else {
            None
        },
        None => None,
    }
}

/// The requests that wait for a reply, each under its own id.
pub struct PendingReplies<S> {
    next_id: u64,
    pending: HashMap<u64, S>,
}

impl<S> PendingReplies<S> {
    /// The senders that wait for a reply, by the id of their request.
    pub closed spec fn waiting(&self) -> Map<u64, S> {
        self.pending@
    }

    /// The id that the next request gets.
    pub closed spec fn next_id(&self) -> u64 {
        self.next_id
    }

    /// Every id handed out so far is below the next one, so a new id is never in use.
    #[verifier::type_invariant]
    closed spec fn ids_below_next(&self) -> bool {
        forall|id: u64| self.pending@.contains_key(id) ==> id < self.next_id
    }

    pub fn new() -> (p: Self)
        ensures
            p.waiting() == Map::<u64, S>::empty(),
            p.next_id() == 0,
    {
        PendingReplies { next_id: 0, pending: HashMap::new() }
    }

    /// Whether another request can still get an id.
    pub fn has_free_id(&self) -> (free: bool)
        ensures
            free == (self.next_id() < u64::MAX),
    {
        self.next_id < u64::MAX
    }

    /// Registers `sender` under a fresh id and returns the text that carries
    /// `payload` under that id.
    pub fn register(&mut self, sender: S, payload: &str) -> (text: String)
        requires
            old(self).next_id() < u64::MAX,
        ensures
            !old(self).waiting().contains_key(old(self).next_id()),
            final(self).waiting() == old(self).waiting().insert(old(self).next_id(), sender),
            final(self).next_id() == old(self).next_id() + 1,
            text@ == frame_text(old(self).next_id(), payload@),
            registration(
                old(self).waiting(),
                old(self).next_id(),
                final(self).waiting(),
                final(self).next_id(),
                sender,
                payload@,
                text@,
            ),
    {
        proof {
            use_type_invariant(&*self);
        }
        let id = self.next_id;
        self.next_id = id + 1;
        let mut pending = HashMap::new();
        std::mem::swap(&mut pending, &mut self.pending);
        pending.insert(id, sender);
        self.pending = pending;
        frame(id, payload)
    }

    /// The sender that waits for the reply `text`, and the reply's payload.
    pub fn route(&self, text: &str) -> (target: Option<(&S, String)>)
        ensures
            match routed(self.waiting(), text@) {
                Some((s, payload)) => target matches Some((t, p)) && *t == s && p@ == payload,
                None => target is None,
            },
    {
        match read_frame(text) {
            Some((id, payload)) => match self.pending.get(&id) {
                Some(sender) => Some((sender, payload)),
                None => None,
            },
            None => None,
        }
    }
}

/// A reply from the mock server reaches the sender that registered the request
/// it answers, with the mock server's payload.
pub proof fn law_reply_reaches_its_sender<S>(
    waiting: Map<u64, S>,
    id: u64,
    sender: S,
    payload: Seq<char>,
)
    ensures
        routed(waiting.insert(id, sender), mock_reply_text(frame_text(id, payload)))
            == Some((sender, "mock reply to: "@ + payload)),
{
    law_mock_reply_keeps_id(id, payload);
}

/// What reached the mock server's loop since its last step.
pub enum MockEvent {
    /// A text arrived.
    Received(String),
    /// Nothing more can arrive.
    Closed,
    /// The last reply went out (`true`) or could not be sent (`false`).
    ReplySent(bool),
}

/// What the mock server's loop does next.
pub enum MockAction {
    /// Send this reply.
    Reply(String),
    /// Wait for the next text.
    Receive,
    /// Leave the loop.
    Stop,
}

/// One turn of the mock server's loop: each text that arrives is answered by
/// exactly one reply, its `mock_reply`; the loop waits again once that reply
/// went out, and ends when nothing more can arrive or a reply cannot be sent.
pub fn mock_server_step(event: MockEvent) -> (action: MockAction)
    ensures
        mock_step_taken(event, action),
        event matches MockEvent::Received(m) ==> (action matches MockAction::Reply(r)
            && r@ == mock_reply_text(m@)),
        event is Closed ==> action is Stop,
        event == MockEvent::ReplySent(true) ==> action is Receive,
        event == MockEvent::ReplySent(false) ==> action is Stop,
{
    match event {
        MockEvent::Received(m) => MockAction::Reply(mock_reply(m.as_str())),
        MockEvent::Closed => MockAction::Stop,
        MockEvent::ReplySent(sent) => if sent {
            MockAction::Receive
        } else {
            MockAction::Stop
        },
    }
}

/// The contract of `mock_server_step` as one relation between what reached the
/// loop and what it did next.
pub open spec fn mock_step_taken(event: MockEvent, action: MockAction) -> bool {
    match event {
        MockEvent::Received(m) => action matches MockAction::Reply(r) && r@ == mock_reply_text(m@),
        MockEvent::Closed => action is Stop,
        MockEvent::ReplySent(sent) => if sent {
            action is Receive
        } else {
            action is Stop
        },
    }
}

/// The texts of the replies among `actions`, in order.
pub open spec fn replies_sent(actions: Seq<MockAction>) -> Seq<Seq<char>>
    decreases actions.len(),
{
    if actions.len() == 0 {
        Seq::empty()
    } else {
        replies_sent(actions.drop_last()) + match actions.last() {
            MockAction::Reply(r) => seq![r@],
            _ => Seq::empty(),
        }
    }
}

/// The events of a mock server that receives `msgs` one by one, each reply
/// going out before the next text arrives, and the steps it took for them.
pub open spec fn mock_run(msgs: Seq<String>, events: Seq<MockEvent>, actions: Seq<MockAction>) -> bool {
    &&& events.len() == 2 * msgs.len()
    &&& actions.len() == events.len()
    &&& forall|i: int| 0 <= i < msgs.len() ==> {
        &&& #[trigger] events[2 * i] == MockEvent::Received(msgs[i])
        &&& events[2 * i + 1] == MockEvent::ReplySent(true)
    }
    &&& forall|j: int| 0 <= j < events.len() ==> #[trigger] mock_step_taken(events[j], actions[j])
}

/// The mock server answers `k` texts with exactly `k` replies, in the order
/// the texts came, the `i`-th reply being the mock reply to the `i`-th text.
pub proof fn law_mock_answers_in_order(msgs: Seq<String>, events: Seq<MockEvent>, actions: Seq<MockAction>)
    requires
        mock_run(msgs, events, actions),
    ensures
        replies_sent(actions) == msgs.map_values(|m: String| mock_reply_text(m@)),
    decreases msgs.len(),
{
    let k = msgs.len() as int;
    if k == 0 {
        assert(actions.len() == 0);
        assert(replies_sent(actions) =~= msgs.map_values(|m: String| mock_reply_text(m@)));
    } else {
        let front = msgs.drop_last();
        let front_events = events.take(2 * k - 2);
        let front_actions = actions.take(2 * k - 2);
        assert forall|i: int| 0 <= i < front.len() implies {
            &&& #[trigger] front_events[2 * i] == MockEvent::Received(front[i])
            &&& front_events[2 * i + 1] == MockEvent::ReplySent(true)
        } by {
            assert(events[2 * i] == MockEvent::Received(msgs[i]));
        }
        assert forall|j: int| 0 <= j < front_events.len() implies #[trigger] mock_step_taken(
            front_events[j],
            front_actions[j],
        ) by {
            assert(mock_step_taken(events[j], actions[j]));
        }
        law_mock_answers_in_order(front, front_events, front_actions);
        assert(events[2 * (k - 1)] == MockEvent::Received(msgs[k - 1]));
        assert(mock_step_taken(events[2 * k - 2], actions[2 * k - 2]));
        assert(mock_step_taken(events[2 * k - 1], actions[2 * k - 1]));
        let with_reply = actions.take(2 * k - 1);
        assert(actions.drop_last() =~= with_reply);
        assert(with_reply.drop_last() =~= front_actions);
        assert(actions.last() is Receive);
        assert(replies_sent(actions) == replies_sent(with_reply));
        let r = actions[2 * k - 2];
        assert(with_reply.last() == r);
        assert(r matches MockAction::Reply(t) && t@ == mock_reply_text(msgs[k - 1]@));
        assert(replies_sent(with_reply) == replies_sent(front_actions) + seq![mock_reply_text(msgs[k - 1]@)]);
        assert(msgs.map_values(|m: String| mock_reply_text(m@)) =~= front.map_values(
            |m: String| mock_reply_text(m@),
        ).push(mock_reply_text(msgs[k - 1]@)));
        assert(replies_sent(actions) =~= msgs.map_values(|m: String| mock_reply_text(m@)));
    }
}

/// One call of `PendingReplies::register`, seen from outside: the senders
/// that waited before, with `sender` added under the id that was next, that id
/// moved on by one, and the text that frames `payload` under that id.
pub open spec fn registration<S>(
    waiting_before: Map<u64, S>,
    next_before: u64,
    waiting_after: Map<u64, S>,
    next_after: u64,
    sender: S,
    payload: Seq<char>,
    text: Seq<char>,
) -> bool {
    &&& waiting_after == waiting_before.insert(next_before, sender)
    &&& next_after == next_before + 1
    &&& text == frame_text(next_before, payload)
}

/// The states that `n` registrations pass through, from a fresh
/// `PendingReplies`: state `i + 1` is what the `i`-th registration made of state `i`.
pub open spec fn registrations_from_fresh<S>(
    waitings: Seq<Map<u64, S>>,
    nexts: Seq<u64>,
    senders: Seq<S>,
    payloads: Seq<Seq<char>>,
    texts: Seq<Seq<char>>,
) -> bool {
    &&& senders.len() == payloads.len()
    &&& senders.len() == texts.len()
    &&& waitings.len() == senders.len() + 1
    &&& nexts.len() == senders.len() + 1
    &&& waitings[0] == Map::<u64, S>::empty()
    &&& nexts[0] == 0
    &&& forall|i: int|
        0 <= i < senders.len() ==> #[trigger] registration(
            waitings[i],
            nexts[i],
            waitings[i + 1],
            nexts[i + 1],
            senders[i],
            payloads[i],
            texts[i],
        )
}

proof fn lemma_state_after_registrations<S>(
    waitings: Seq<Map<u64, S>>,
    nexts: Seq<u64>,
    senders: Seq<S>,
    payloads: Seq<Seq<char>>,
    texts: Seq<Seq<char>>,
    k: int,
)
    requires
        registrations_from_fresh(waitings, nexts, senders, payloads, texts),
        0 <= k <= senders.len(),
    ensures
        nexts[k] == k,
        forall|id: u64| #[trigger] waitings[k].contains_key(id) <==> id < k,
        forall|i: int| 0 <= i < k ==> waitings[k][i as u64] == #[trigger] senders[i],
    decreases k,
{
    if k > 0 {
        let j = k - 1;
        lemma_state_after_registrations(waitings, nexts, senders, payloads, texts, j);
        assert(registration(
            waitings[j],
            nexts[j],
            waitings[j + 1],
            nexts[j + 1],
            senders[j],
            payloads[j],
            texts[j],
        ));
    }
}

/// Successive registrations on a fresh `PendingReplies` take the ids 0, 1, 2,
/// ... in turn: the `i`-th text frames its payload under id `i`, so no id is
/// used twice, and afterwards every sender still waits under its own id and
/// no other id is in use.
pub proof fn law_successive_ids<S>(
    waitings: Seq<Map<u64, S>>,
    nexts: Seq<u64>,
    senders: Seq<S>,
    payloads: Seq<Seq<char>>,
    texts: Seq<Seq<char>>,
)
    requires
        registrations_from_fresh(waitings, nexts, senders, payloads, texts),
    ensures
        forall|i: int| 0 <= i < texts.len() ==> #[trigger] texts[i] == frame_text(i as u64, payloads[i]),
        nexts.last() == senders.len(),
        forall|id: u64| #[trigger] waitings.last().contains_key(id) <==> id < senders.len(),
        forall|i: int| 0 <= i < senders.len() ==> waitings.last()[i as u64] == #[trigger] senders[i],
{
    let n = senders.len() as int;
    lemma_state_after_registrations(waitings, nexts, senders, payloads, texts, n);
    assert forall|i: int| 0 <= i < texts.len() implies #[trigger] texts[i] == frame_text(i as u64, payloads[i]) by {
        lemma_state_after_registrations(waitings, nexts, senders, payloads, texts, i);
        assert(registration(
            waitings[i],
            nexts[i],
            waitings[i + 1],
            nexts[i + 1],
            senders[i],
            payloads[i],
            texts[i],
        ));
    }
}

} // verus!
