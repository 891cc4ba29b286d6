//! The control connection to one player process: newline-delimited JSON
//! commands that carry a request id, and replies and events coming back.
use vstd::prelude::*;
use serde_json::Value;
use crate::text::{decimal, append_decimal};

verus! {

/// serde_json's JSON value, carried through unopened.
#[verifier::external_type_specification]
#[verifier::external_body]
pub struct ExValue(serde_json::Value);

/// Relies on serde_json::Value::as_str: the text of a string value. Nothing
/// is claimed of the result.
pub assume_specification[ serde_json::Value::as_str ](v: &Value) -> Option<&str>;

/// Whether serde_json reads the bytes as one JSON value.
pub uninterp spec fn json_line_parses(line: Seq<u8>) -> bool;

/// The member `key` of the JSON object in `line`, where serde_json reads one
/// and the member is an integer that fits a `u64`.
pub uninterp spec fn json_member_u64(line: Seq<u8>, key: Seq<char>) -> Option<u64>;

/// The member `key` of the JSON object in `line`, where serde_json reads one
/// and the member is a string.
pub uninterp spec fn json_member_text(line: Seq<u8>, key: Seq<char>) -> Option<Seq<char>>;

/// Relies on serde_json::from_slice: the JSON value that the bytes hold, and
/// `None` where they hold none.
#[verifier::external_body]
pub(crate) fn parse_json(bytes: &[u8]) -> (r: Option<Value>)
    ensures
        r is Some <==> json_line_parses(bytes@),
{
    serde_json::from_slice::<Value>(bytes).ok()
}

/// Relies on serde_json::from_slice, Value::get with a string key and
/// Value::as_u64: the member `key` of the object in `bytes` as a `u64`.
#[verifier::external_body]
fn line_member_u64(bytes: &[u8], key: &str) -> (r: Option<u64>)
    ensures
        r == json_member_u64(bytes@, key@),
{
    let v = match serde_json::from_slice::<Value>(bytes) {
        Ok(v) => v,
        Err(_) => return None,
    };
    v.get(key)?.as_u64()
}

/// Relies on serde_json::from_slice, Value::get with a string key and
/// Value::as_str: the member `key` of the object in `bytes` as text.
#[verifier::external_body]
fn line_member_text(bytes: &[u8], key: &str) -> (r: Option<String>)
    ensures
        opt_view(r) == json_member_text(bytes@, key@),
{
    let v = match serde_json::from_slice::<Value>(bytes) {
        Ok(v) => v,
        Err(_) => return None,
    };
    Some(v.get(key)?.as_str()?.to_owned())
}

/// Relies on serde_json::Value::get with a string key: the member of that
/// name of an object.
#[verifier::external_body]
pub(crate) fn member<'a>(v: &'a Value, key: &str) -> (r: Option<&'a Value>) {
    v.get(key)
}

pub open spec fn hex_digit(d: nat) -> char {
    if d < 10 {
        crate::text::digit_char(d)
    } else if d == 10 { 'a' } else if d == 11 { 'b' } else if d == 12 { 'c' } else if d == 13 { 'd' }
    else if d == 14 { 'e' } else { 'f' }
}

/// How one character is written inside a JSON string: quote and backslash
/// escaped, the five short control escapes, `\u00xx` for the other control
/// characters, everything else as it is.
pub open spec fn escaped_char(c: char) -> Seq<char> {
    if c == '"' {
        "\\\""@
    } else if c == '\\' {
        "\\\\"@
    } else if c == '\u{8}' {
        "\\b"@
    } else if c == '\t' {
        "\\t"@
    } else if c == '\n' {
        "\\n"@
    } else if c == '\u{c}' {
        "\\f"@
    } else if c == '\r' {
        "\\r"@
    } else if (c as u32) < 0x20 {
        "\\u00"@ + seq![hex_digit((c as u32 / 16) as nat)] + seq![hex_digit((c as u32 % 16) as nat)]
    } else {
        seq![c]
    }
}

pub open spec fn escaped(s: Seq<char>) -> Seq<char>
    decreases s.len(),
{
    if s.len() == 0 {
        Seq::empty()
    } else {
        escaped(s.drop_last()) + escaped_char(s.last())
    }
}

/// A string written as a JSON string literal, as serde_json writes it.
pub open spec fn json_quoted(s: Seq<char>) -> Seq<char> {
    "\""@ + escaped(s) + "\""@
}

proof fn lemma_escaped_plain(s: Seq<char>)
    requires
        forall|i: int| 0 <= i < s.len() ==> #[trigger] plain_char(s[i]),
    ensures
        escaped(s) == s,
    decreases s.len(),
{
    if s.len() > 0 {
        let t = s.drop_last();
        assert forall|i: int| 0 <= i < t.len() implies #[trigger] plain_char(t[i]) by {
            assert(t[i] == s[i]);
        }
        lemma_escaped_plain(t);
        assert(plain_char(s[s.len() - 1]));
        let c = s.last();
        assert(escaped_char(c) == seq![c]);
        assert(t.push(c) =~= s);
        assert(escaped(s) =~= s);
    } else {
        assert(s =~= Seq::<char>::empty());
    }
}

/// A character that JSON strings hold as it is.
pub open spec fn plain_char(c: char) -> bool {
    c != '"' && c != '\\' && (c as u32) >= 0x20
}

/// Text without quotes, backslashes or control characters is written as it
/// is, between quotes.
pub proof fn lemma_plain_text_quoted(s: Seq<char>)
    requires
        forall|i: int| 0 <= i < s.len() ==> #[trigger] plain_char(s[i]),
    ensures
        json_quoted(s) == "\""@ + s + "\""@,
{
    lemma_escaped_plain(s);
}

fn hex_text(d: u32) -> (r: &'static str)
    requires
        d < 16,
    ensures
        r@ == seq![hex_digit(d as nat)],
{
    proof {
        reveal_strlit("a");
        reveal_strlit("b");
        reveal_strlit("c");
        reveal_strlit("d");
        reveal_strlit("e");
        reveal_strlit("f");
    }
    if d < 10 {
        crate::text::digit_text(d as u64)
    } else if d == 10 { "a" } else if d == 11 { "b" } else if d == 12 { "c" } else if d == 13 { "d" }
    else if d == 14 { "e" } else { "f" }
}

/// The JSON string literal for `s`.
pub fn quote(s: &str) -> (r: String)
    ensures
        r@ == json_quoted(s@),
{
    let n = s.unicode_len();
    let mut out = "\"".to_owned();
    let mut i: usize = 0;
    while i < n
        invariant
            n == s@.len(),
            i <= n,
            out@ == "\""@ + escaped(s@.subrange(0, i as int)),
        decreases n - i,
    {
        let c = s.get_char(i);
        if c == '"' {
            out.append("\\\"");
        } else if c == '\\' {
            out.append("\\\\");
        } else if c == '\u{8}' {
            out.append("\\b");
        } else if c == '\t' {
            out.append("\\t");
        } else if c == '\n' {
            out.append("\\n");
        } else if c == '\u{c}' {
            out.append("\\f");
        } else if c == '\r' {
            out.append("\\r");
        } else if (c as u32) < 0x20 {
            out.append("\\u00");
            out.append(hex_text(c as u32 / 16));
            out.append(hex_text(c as u32 % 16));
        } else {
            out.append(s.substring_char(i, i + 1));
        }
        proof {
            let sub = s@.subrange(0, i + 1);
            assert(sub.drop_last() =~= s@.subrange(0, i as int));
            assert(sub.last() == c);
            assert(s@.subrange(i as int, i + 1) =~= seq![c]);
            assert(out@ =~= "\""@ + escaped(sub));
        }
        i = i + 1;
    }
    assert(s@.subrange(0, n as int) =~= s@);
    out.append("\"");
    out
}

/// An argument of a command: a name, written as a JSON string, or a number,
/// written as the decimal text given.
pub enum CommandArg {
    Name(String),
    Number(String),
}

pub open spec fn arg_text(a: CommandArg) -> Seq<char> {
    match a {
        CommandArg::Name(s) => json_quoted(s@),
        CommandArg::Number(s) => s@,
    }
}

/// The arguments after the verb, each led by a comma.
pub open spec fn args_text(args: Seq<CommandArg>) -> Seq<char>
    decreases args.len(),
{
    if args.len() == 0 {
        Seq::empty()
    } else {
        args_text(args.drop_last()) + ","@ + arg_text(args.last())
    }
}

/// The line that sends `verb` with `args` under `request_id`.
pub open spec fn command_text(verb: Seq<char>, args: Seq<CommandArg>, request_id: nat) -> Seq<char> {
    "{\"command\":["@ + json_quoted(verb) + args_text(args) + "],\"request_id\":"@ + decimal(request_id) + "}\n"@
}

/// The command line for `verb` with `args`, as sent on the control socket.
pub fn command_line(verb: &str, args: &Vec<CommandArg>, request_id: u64) -> (r: String)
    ensures
        r@ == command_text(verb@, args@, request_id as nat),
{
    let mut out = String::new();
    out.append("{\"command\":[");
    let q = quote(verb);
    out.append(q.as_str());
    let ghost head = out@;
    let mut i: usize = 0;
    while i < args.len()
        invariant
            i <= args@.len(),
            out@ == head + args_text(args@.subrange(0, i as int)),
        decreases args.len() - i,
    {
        let ghost before = out@;
        out.append(",");
        match &args[i] {
            CommandArg::Name(s) => {
                let t = quote(s.as_str());
                out.append(t.as_str());
            },
            CommandArg::Number(s) => {
                out.append(s.as_str());
            },
        }
        proof {
            let sub = args@.subrange(0, i + 1);
            assert(sub.drop_last() =~= args@.subrange(0, i as int));
            assert(sub.last() == args@[i as int]);
            assert(out@ =~= head + args_text(sub));
        }
        i = i + 1;
    }
    assert(args@.subrange(0, args@.len() as int) =~= args@);
    out.append("],\"request_id\":");
    append_decimal(&mut out, request_id);
    out.append("}\n");
    assert(out@ =~= command_text(verb@, args@, request_id as nat));
    out
}

/// What the contracts know of a correlation table: the next id to hand out
/// and the ids still waiting for a reply.
pub struct CorrelatorView {
    pub next_id: nat,
    pub pending: Set<u64>,
}

/// The table after a request was registered, and the id it got; `None` once
/// ids are used up.
pub open spec fn registered(v: CorrelatorView) -> (CorrelatorView, Option<u64>) {
    if v.next_id < u64::MAX {
        (CorrelatorView { next_id: v.next_id + 1, pending: v.pending.insert(v.next_id as u64) }, Some(v.next_id as u64))
    } else {
        (v, None)
    }
}

/// The table once the request `id` is settled, by a reply or a timeout.
pub open spec fn settled(v: CorrelatorView, id: u64) -> CorrelatorView {
    CorrelatorView { next_id: v.next_id, pending: v.pending.remove(id) }
}

/// The ids in flight on one connection. Ids grow by one with each request,
/// so none is handed out twice.
pub struct Correlator {
    next_id: u64,
    pending: Vec<u64>,
}

impl View for Correlator {
    type V = CorrelatorView;

    closed spec fn view(&self) -> CorrelatorView {
        CorrelatorView { next_id: self.next_id as nat, pending: self.pending@.to_set() }
    }
}

impl Correlator {
    /// Every pending id was handed out before, and is listed once.
    pub closed spec fn wf(&self) -> bool {
        &&& self.next_id >= 1
        &&& self.pending@.no_duplicates()
        &&& forall|i: int| 0 <= i < self.pending@.len() ==> #[trigger] self.pending@[i] < self.next_id
    }

    pub fn new() -> (r: Correlator)
        ensures
            r.wf(),
            r@ == (CorrelatorView { next_id: 1, pending: Set::empty() }),
    {
        let r = Correlator { next_id: 1, pending: Vec::new() };
        assert(r.pending@.to_set() =~= Set::<u64>::empty());
        r
    }

    /// Every pending id was handed out before: it is below the next one.
    pub proof fn lemma_pending_below_next(&self)
        requires
            self.wf(),
        ensures
            forall|id: u64| #[trigger] self@.pending.contains(id) ==> id < self@.next_id,
    {
        assert forall|id: u64| #[trigger] self@.pending.contains(id) implies id < self@.next_id by {
            let i = self.pending@.index_of(id);
            assert(self.pending@[i] == id);
        }
    }

    /// Whether `id` waits for a reply.
    pub fn is_pending(&self, id: u64) -> (r: bool)
        ensures
            r == self@.pending.contains(id),
    {
        let mut i: usize = 0;
        while i < self.pending.len()
            invariant
                i <= self.pending@.len(),
                forall|j: int| 0 <= j < i ==> #[trigger] self.pending@[j] != id,
            decreases self.pending.len() - i,
        {
            if self.pending[i] == id {
                assert(self.pending@.contains(id));
                return true;
            }
            i = i + 1;
        }
        assert(!self.pending@.contains(id));
        false
    }

    /// Hands out the id for a new request and marks it pending.
    pub fn register(&mut self) -> (r: Option<u64>)
        requires
            old(self).wf(),
        ensures
            final(self).wf(),
            (final(self)@, r) == registered(old(self)@),
            r matches Some(id) ==> !old(self)@.pending.contains(id),
    {
        if self.next_id == u64::MAX {
            return None;
        }
        let id = self.next_id;
        self.pending.push(id);
        self.next_id = self.next_id + 1;
        proof {
            let old_p = old(self).pending@;
            assert(!old_p.contains(id)) by {
                if old_p.contains(id) {
                    let i = old_p.index_of(id);
                    assert(old_p[i] == id);
                }
            }
            assert(self.pending@ == old_p.push(id));
            assert(self.pending@.no_duplicates()) by {
                assert forall|a: int, b: int| 0 <= a < b < self.pending@.len() implies self.pending@[a] != self.pending@[b] by {
                    if b == old_p.len() {
                        assert(old_p[a] < id);
                    }
                }
            }
            let np = self.pending@;
            assert forall|x: u64| np.to_set().contains(x) == old_p.to_set().insert(id).contains(x) by {
                if np.contains(x) {
                    let k = np.index_of(x);
                    if k < old_p.len() {
                        assert(old_p[k] == x);
                    }
                }
                if old_p.contains(x) {
                    let k = old_p.index_of(x);
                    assert(np[k] == x);
                }
                if x == id {
                    assert(np[old_p.len() as int] == x);
                }
            }
            assert(np.to_set() =~= old_p.to_set().insert(id));
        }
        Some(id)
    }

    /// Drops `id` from the pending requests.
    fn settle(&mut self, id: u64)
        requires
            old(self).wf(),
        ensures
            final(self).wf(),
            final(self)@ == settled(old(self)@, id),
    {
        let ghost old_p = self.pending@;
        let mut i: usize = 0;
        while i < self.pending.len()
            invariant
                i <= self.pending@.len(),
                self.pending@ == old_p,
                self.next_id == old(self).next_id,
                old_p == old(self).pending@,
                old(self).wf(),
                forall|j: int| 0 <= j < i ==> #[trigger] self.pending@[j] != id,
            decreases self.pending.len() - i,
        {
            if self.pending[i] == id {
                let _ = self.pending.remove(i);
                proof {
                    let np = self.pending@;
                    assert(np =~= old_p.remove(i as int));
                    assert forall|a: int, b: int| 0 <= a < b < np.len() implies np[a] != np[b] by {
                        let a2 = if a < i { a } else { a + 1 };
                        let b2 = if b < i { b } else { b + 1 };
                        assert(np[a] == old_p[a2]);
                        assert(np[b] == old_p[b2]);
                    }
                    assert forall|j: int| 0 <= j < np.len() implies #[trigger] np[j] < self.next_id by {
                        let j2 = if j < i { j } else { j + 1 };
                        assert(np[j] == old_p[j2]);
                    }
                    assert forall|x: u64| np.to_set().contains(x) == old_p.to_set().remove(id).contains(x) by {
                        if np.contains(x) {
                            let k = np.index_of(x);
                            let k2 = if k < i { k } else { k + 1 };
                            assert(old_p[k2] == x);
                            assert(k2 != i as int);
                        }
                        if old_p.contains(x) && x != id {
                            let k = old_p.index_of(x);
                            assert(k != i as int);
                            let k2 = if k < i { k } else { k - 1 };
                            assert(np[k2] == x);
                        }
                    }
                    assert(np.to_set() =~= old_p.to_set().remove(id));
                }
                return;
            }
            i = i + 1;
        }
        proof {
            assert(!old_p.contains(id));
            assert(old_p.to_set() =~= old_p.to_set().remove(id));
        }
    }
}

/// A line read from the player, with the members that routing reads; the
/// whole value stays in `body`.
pub struct InboundLine {
    pub request_id: Option<u64>,
    pub event: Option<String>,
    pub error: Option<String>,
    pub body: Value,
}

/// Parses one line from the player: `None` where it is not JSON, else the
/// members that routing reads, and the whole value.
pub fn read_inbound(bytes: &[u8]) -> (r: Option<InboundLine>)
    ensures
        r is None <==> !json_line_parses(bytes@),
        r matches Some(l) ==> {
            &&& l.request_id == json_member_u64(bytes@, "request_id"@)
            &&& opt_view(l.event) == json_member_text(bytes@, "event"@)
            &&& opt_view(l.error) == json_member_text(bytes@, "error"@)
        },
{
    let body = match parse_json(bytes) {
        Some(v) => v,
        None => return None,
    };
    let request_id = line_member_u64(bytes, "request_id");
    let event = line_member_text(bytes, "event");
    let error = line_member_text(bytes, "error");
    Some(InboundLine { request_id, event, error, body })
}

/// Where an inbound line goes.
pub enum Route {
    /// The reply to the pending request with this id.
    Reply(u64),
    /// The player sought: its position is to be queried and published.
    Seek,
    /// The file ended: to be published for the playlist service.
    FileEnded,
    /// Nothing to do: an unknown event, or a reply nobody waits for.
    Ignored,
}

pub open spec fn opt_view(s: Option<String>) -> Option<Seq<char>> {
    match s {
        Some(t) => Some(t@),
        None => None,
    }
}

/// A reply to a pending request goes to it; otherwise a known event is
/// dispatched and anything else dropped.
pub open spec fn route_of(pending: Set<u64>, request_id: Option<u64>, event: Option<Seq<char>>) -> Route {
    if request_id is Some && pending.contains(request_id.unwrap()) {
        Route::Reply(request_id.unwrap())
    } else {
        match event {
            Some(e) => if e == "seek"@ {
                Route::Seek
            } else if e == "end-file"@ {
                Route::FileEnded
            } else {
                Route::Ignored
            },
            None => Route::Ignored,
        }
    }
}

/// Why a command got no useful reply.
#[derive(Debug)]
pub enum ProtocolError {
    /// No reply came within the wait.
    Timeout,
    /// The player answered with this error.
    PlayerFailure(String),
    /// The reply carries no error member.
    MalformedReply,
}

/// The error member of a reply that reports success.
pub open spec fn success_sentinel() -> Seq<char> {
    "success"@
}

/// What a wait that ended with `reply` (or with none) yields.
pub open spec fn reply_result(reply: Option<InboundLine>) -> Result<Value, ProtocolError> {
    match reply {
        None => Err(ProtocolError::Timeout),
        Some(l) => match l.error {
            None => Err(ProtocolError::MalformedReply),
            Some(e) => if e@ == success_sentinel() {
                Ok(l.body)
            } else {
                Err(ProtocolError::PlayerFailure(e))
            },
        },
    }
}

impl Correlator {
    /// Routes a line read from the player; a reply is taken off the pending
    /// requests.
    pub fn route(&mut self, line: &InboundLine) -> (r: Route)
        requires
            old(self).wf(),
        ensures
            final(self).wf(),
            r == route_of(old(self)@.pending, line.request_id, opt_view(line.event)),
            final(self)@ == match r {
                Route::Reply(id) => settled(old(self)@, id),
                _ => old(self)@,
            },
    {
        if let Some(id) = line.request_id {
            if self.is_pending(id) {
                self.settle(id);
                return Route::Reply(id);
            }
        }
        match &line.event {
            Some(e) => {
                if *e == "seek".to_owned() {
                    Route::Seek
                } else if *e == "end-file".to_owned() {
                    Route::FileEnded
                } else {
                    Route::Ignored
                }
            },
            None => Route::Ignored,
        }
    }

    /// Ends the wait for request `id`, with the reply that came or with none
    /// when the wait timed out. The id is no longer pending afterwards.
    pub fn conclude(&mut self, id: u64, reply: Option<InboundLine>) -> (r: Result<Value, ProtocolError>)
        requires
            old(self).wf(),
        ensures
            final(self).wf(),
            final(self)@ == settled(old(self)@, id),
            r == reply_result(reply),
    {
        self.settle(id);
        match reply {
            None => Err(ProtocolError::Timeout),
            Some(l) => match l.error {
                None => Err(ProtocolError::MalformedReply),
                Some(e) => {
                    proof { reveal_strlit("success"); }
                    if e == "success".to_owned() {
                        Ok(l.body)
                    } else {
                        Err(ProtocolError::PlayerFailure(e))
                    }
                },
            },
        }
    }
}

impl ProtocolError {
    pub open spec fn spec_describe(&self) -> Seq<char> {
        match self {
            ProtocolError::Timeout => "Timed out waiting for reply"@,
            ProtocolError::PlayerFailure(e) => "Player reported failure: "@ + e@,
            ProtocolError::MalformedReply => "Malformed reply"@,
        }
    }

    /// The text of the error, as reported on the bus.
    pub fn describe(&self) -> (r: String)
        ensures
            r@ == self.spec_describe(),
    {
        match self {
            ProtocolError::Timeout => "Timed out waiting for reply".to_owned(),
            ProtocolError::PlayerFailure(e) => {
                let mut out = "Player reported failure: ".to_owned();
                out.append(e.as_str());
                out
            },
            ProtocolError::MalformedReply => "Malformed reply".to_owned(),
        }
    }
}

/// On any well-formed table with ids left, registering a request and
/// settling it on timeout gives back the pending requests of before, and the
/// next id differs from the one that timed out.
pub proof fn law_timeout_restores_table(c: &Correlator)
    requires
        c.wf(),
        c@.next_id < u64::MAX,
    ensures
        ({
            let (v1, r) = registered(c@);
            let v2 = settled(v1, r.unwrap());
            &&& r is Some
            &&& v2.pending == c@.pending
            &&& registered(v2).1 != r
        }),
{
    c.lemma_pending_below_next();
    law_timed_out_request_leaves_nothing(c@);
}

/// A request that timed out leaves the pending requests as they were before
/// it was registered, and its id is not handed out again.
pub proof fn law_timed_out_request_leaves_nothing(v: CorrelatorView)
    requires
        v.next_id < u64::MAX,
        forall|id: u64| #[trigger] v.pending.contains(id) ==> id < v.next_id,
    ensures
        ({
            let (v1, r) = registered(v);
            let v2 = settled(v1, r.unwrap());
            &&& r is Some
            &&& v2.pending == v.pending
            &&& r.unwrap() < v2.next_id
            &&& registered(v2).1 != r
        }),
{
    let (v1, r) = registered(v);
    let id = r.unwrap();
    assert(!v.pending.contains(id));
    assert(v1.pending.remove(id) =~= v.pending);
}

} // verus!
