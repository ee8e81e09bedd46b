//! REST and websocket client logic: request and URL building, response
//! acceptance, subscription messages and the decisions of a websocket read.

use crate::text::{
    decimal, digit_char, join, push_char, push_decimal, trim_end_slashes, trim_end_slashes_str,
};
use vstd::prelude::*;

verus! {

/// A REST request: a path on the exchange host and its query pairs, in order.
#[derive(Debug, Clone, PartialEq, Eq)]
pub struct RestRequest {
    pub path: &'static str,
    pub query: Vec<(String, String)>,
}

/// The query pairs of a request as texts.
pub open spec fn query_view(query: Seq<(String, String)>) -> Seq<(Seq<char>, Seq<char>)> {
    query.map_values(|pair: (String, String)| (pair.0@, pair.1@))
}

/// The value of the first pair whose key is `key`.
pub open spec fn query_lookup(query: Seq<(Seq<char>, Seq<char>)>, key: Seq<char>) -> Option<
    Seq<char>,
>
    decreases query.len(),
{
    if query.len() == 0 {
        None
    } else if query[0].0 == key {
        Some(query[0].1)
    } else {
        query_lookup(query.drop_first(), key)
    }
}

/// `key=value` for one query pair.
pub open spec fn pair_text(pair: (Seq<char>, Seq<char>)) -> Seq<char> {
    pair.0 + seq!['='] + pair.1
}

/// The query string of a request: its pairs joined by `&`.
pub open spec fn query_text(query: Seq<(Seq<char>, Seq<char>)>) -> Seq<char> {
    join(query.map_values(|pair: (Seq<char>, Seq<char>)| pair_text(pair)), seq!['&'])
}

/// The URL of a request on a host: the host without trailing slashes, the
/// path, and `?` and the query string when there are query pairs.
pub open spec fn rest_url(
    base_url: Seq<char>,
    path: Seq<char>,
    query: Seq<(Seq<char>, Seq<char>)>,
) -> Seq<char> {
    if query.len() == 0 {
        trim_end_slashes(base_url) + path
    } else {
        trim_end_slashes(base_url) + path + seq!['?'] + query_text(query)
    }
}

proof fn lemma_query_lookup_suffix(query: Seq<(Seq<char>, Seq<char>)>, key: Seq<char>, i: int)
    requires
        0 <= i < query.len(),
    ensures
        query_lookup(query.subrange(i, query.len() as int), key) == (if query[i].0 == key {
            Some(query[i].1)
        } else {
            query_lookup(query.subrange(i + 1, query.len() as int), key)
        }),
{
    let rest = query.subrange(i, query.len() as int);
    assert(rest[0] == query[i]);
    assert(rest.drop_first() =~= query.subrange(i + 1, query.len() as int));
}

proof fn lemma_join_step(parts: Seq<Seq<char>>, sep: Seq<char>, i: int)
    requires
        1 <= i < parts.len(),
    ensures
        join(parts.take(i + 1), sep) == join(parts.take(i), sep) + sep + parts[i],
{
    assert(parts.take(i + 1).drop_last() =~= parts.take(i));
}

impl RestRequest {
    /// The value of the first query pair with key `key`, if any.
    pub fn query_value(&self, key: &str) -> (res: Option<&str>)
        ensures
            match query_lookup(query_view(self.query@), key@) {
                Some(v) => res matches Some(r) && r@ == v,
                None => res is None,
            },
    {
        let ghost qv = query_view(self.query@);
        let n = self.query.len();
        let mut i: usize = 0;
        assert(qv.subrange(0, n as int) =~= qv);
        while i < n
            invariant
                n == self.query@.len(),
                qv == query_view(self.query@),
                i <= n,
                query_lookup(qv, key@) == query_lookup(qv.subrange(i as int, n as int), key@),
            decreases n - i,
        {
            proof {
                lemma_query_lookup_suffix(qv, key@, i as int);
            }
            let pair = &self.query[i];
            if crate::text::str_eq(pair.0.as_str(), key) {
                return Some(pair.1.as_str());
            }
            i = i + 1;
        }
        None
    }
}

/// The status and body of an answered REST request.
#[derive(Debug, Clone, PartialEq, Eq)]
pub struct RestResponse {
    pub status_code: u16,
    pub body: String,
}

/// A REST client for one exchange host.
#[derive(Debug, Clone, PartialEq, Eq)]
pub struct RestMarketDataClient {
    pub base_url: String,
}

/// The error text of a refused HTTP answer.
pub open spec fn http_failure_text(status_code: u16, body: Seq<char>) -> Seq<char> {
    "http request failed with status "@ + decimal(status_code as nat) + ": "@ + body
}

impl RestMarketDataClient {
    /// A client for the host at `base_url`.
    pub fn new(base_url: &str) -> (client: Self)
        ensures
            client.base_url@ == base_url@,
    {
        RestMarketDataClient { base_url: base_url.to_owned() }
    }

    /// The full URL of `request` on this client's host.
    pub fn build_url(&self, request: &RestRequest) -> (url: String)
        ensures
            url@ == rest_url(self.base_url@, request.path@, query_view(request.query@)),
    {
        let base = trim_end_slashes_str(self.base_url.as_str());
        let mut url = base.to_owned();
        url.append(request.path);
        let ghost prefix = url@;
        let n = request.query.len();
        if n == 0 {
            return url;
        }
        push_char(&mut url, '?');
        let ghost qv = query_view(request.query@);
        let ghost parts = qv.map_values(|pair: (Seq<char>, Seq<char>)| pair_text(pair));
        let mut i: usize = 0;
        while i < n
            invariant
                n == request.query@.len(),
                n > 0,
                i <= n,
                qv == query_view(request.query@),
                parts == qv.map_values(|pair: (Seq<char>, Seq<char>)| pair_text(pair)),
                url@ == prefix + seq!['?'] + join(parts.take(i as int), seq!['&']),
            decreases n - i,
        {
            let ghost before = url@;
            if i > 0 {
                push_char(&mut url, '&');
            }
            let pair = &request.query[i];
            url.append(pair.0.as_str());
            push_char(&mut url, '=');
            url.append(pair.1.as_str());
            proof {
                assert(parts[i as int] == pair_text(qv[i as int]));
                if i > 0 {
                    lemma_join_step(parts, seq!['&'], i as int);
                } else {
                    assert(parts.take(1).len() == 1);
                    assert(join(parts.take(1), seq!['&']) == parts.take(1)[0]);
                    assert(join(parts.take(0), seq!['&']) =~= Seq::<char>::empty());
                }
                assert(url@ =~= prefix + seq!['?'] + join(parts.take(i + 1), seq!['&']));
            }
            i = i + 1;
        }
        assert(parts.take(n as int) =~= parts);
        url
    }

    /// Accepts an answer with a status below 400; any other answer becomes
    /// the error "http request failed with status <status>: <body>".
    pub fn check_response(status_code: u16, body: String) -> (res: Result<RestResponse, String>)
        ensures
            status_code < 400 ==> res == Ok::<RestResponse, String>(
                RestResponse { status_code, body },
            ),
            status_code >= 400 ==> (res matches Err(e) && e@ == http_failure_text(
                status_code,
                body@,
            )),
    {
        if status_code >= 400 {
            let mut message = "http request failed with status ".to_owned();
            push_decimal(&mut message, status_code as u64);
            message.append(": ");
            message.append(body.as_str());
            assert(message@ =~= http_failure_text(status_code, body@));
            return Err(message);
        }
        Ok(RestResponse { status_code, body })
    }
}

/// One stream of an exchange's websocket feed, by name.
#[derive(Debug, Clone, PartialEq, Eq)]
pub struct StreamSubscription {
    pub stream_name: String,
}

/// The stream names of a list of subscriptions, in order.
pub open spec fn stream_names(subscriptions: Seq<StreamSubscription>) -> Seq<Seq<char>> {
    subscriptions.map_values(|subscription: StreamSubscription| subscription.stream_name@)
}

/// The error text for an empty subscription list.
pub open spec fn no_subscription_text() -> Seq<char> {
    "at least one websocket stream subscription is required"@
}

/// The combined-stream URL: the host without trailing slashes, then
/// `/stream?streams=` and the stream names joined by `/`.
pub open spec fn combined_stream_url(base_url: Seq<char>, names: Seq<Seq<char>>) -> Seq<char> {
    trim_end_slashes(base_url) + "/stream?streams="@ + join(names, seq!['/'])
}

/// The lower-case hexadecimal digit of `d` (below 16).
pub open spec fn hex_digit(d: int) -> char {
    if d < 10 {
        digit_char(d)
    } else {
        (('a' as int) + (d - 10)) as char
    }
}

/// How serde_json writes one character inside a JSON string: the quote, the
/// backslash and the control characters escaped (the five with a short
/// escape by it, the others as `\u00` and two hexadecimal digits), every
/// other character as itself.
pub open spec fn json_escaped_char(c: char) -> Seq<char> {
    if c == '"' {
        seq!['\\', '"']
    } else if c == '\\' {
        seq!['\\', '\\']
    } else if c == '\x08' {
        seq!['\\', 'b']
    } else if c == '\x0C' {
        seq!['\\', 'f']
    } else if c == '\n' {
        seq!['\\', 'n']
    } else if c == '\r' {
        seq!['\\', 'r']
    } else if c == '\t' {
        seq!['\\', 't']
    } else if (c as int) < 0x20 {
        seq!['\\', 'u', '0', '0', hex_digit((c as int) / 16), hex_digit((c as int) % 16)]
    } else {
        seq![c]
    }
}

/// The characters of `s`, each escaped as in a JSON string.
pub open spec fn json_escaped(s: Seq<char>) -> Seq<char>
    decreases s.len(),
{
    if s.len() == 0 {
        Seq::empty()
    } else {
        json_escaped(s.drop_last()) + json_escaped_char(s.last())
    }
}

/// The JSON string holding `s`.
pub open spec fn json_string(s: Seq<char>) -> Seq<char> {
    seq!['"'] + json_escaped(s) + seq!['"']
}

/// The compact JSON array of the strings `items`, in order.
pub open spec fn json_string_array(items: Seq<Seq<char>>) -> Seq<char> {
    seq!['['] + join(items.map_values(|item: Seq<char>| json_string(item)), seq![',']) + seq![']']
}

/// Whether `a` comes before `b` in the order of their characters' code
/// points (the order of their UTF-8 bytes).
pub open spec fn text_before(a: Seq<char>, b: Seq<char>) -> bool
    decreases a.len(),
{
    if b.len() == 0 {
        false
    } else if a.len() == 0 {
        true
    } else if a[0] != b[0] {
        (a[0] as int) < (b[0] as int)
    } else {
        text_before(a.drop_first(), b.drop_first())
    }
}

/// The subscribe request of the exchange's websocket protocol: its `id`,
/// its `method` and its `params`, in the order serde_json writes an object's
/// keys (sorted).
pub open spec fn subscribe_message_text(names: Seq<Seq<char>>, request_id: u64) -> Seq<char> {
    "{\"id\":"@ + decimal(request_id as nat) + ",\"method\":\"SUBSCRIBE\",\"params\":"@
        + json_string_array(names) + "}"@
}

/// A `serde_json::Map` with an unsigned number under `number_key`, a string
/// under `string_key` and an array of strings under `list_key`, as
/// `serde_json::Value::Object(..).to_string()` writes it: compact, the keys
/// in their sorted order (the map is a `BTreeMap`), strings escaped by
/// serde_json's escape table.
#[verifier::external_body]
fn json_object_text(
    number_key: &str,
    number: u64,
    string_key: &str,
    string: &str,
    list_key: &str,
    list: &Vec<String>,
) -> (text: String)
    requires
        text_before(number_key@, string_key@),
        text_before(string_key@, list_key@),
    ensures
        text@ == seq!['{'] + json_string(number_key@) + seq![':'] + decimal(number as nat)
            + seq![','] + json_string(string_key@) + seq![':'] + json_string(string@) + seq![
            ',',
        ] + json_string(list_key@) + seq![':'] + json_string_array(
            list@.map_values(|item: String| item@),
        ) + seq!['}'],
{
    let mut object = serde_json::Map::new();
    object.insert(number_key.to_owned(), serde_json::Value::from(number));
    object.insert(string_key.to_owned(), serde_json::Value::from(string));
    object.insert(list_key.to_owned(), serde_json::Value::from(list.clone()));
    serde_json::Value::Object(object).to_string()
}

/// A text without quotes, backslashes or control characters is its own JSON
/// escaping.
pub proof fn lemma_plain_json_escaped(s: Seq<char>)
    requires
        forall|i: int|
            0 <= i < s.len() ==> #[trigger] s[i] != '"' && s[i] != '\\' && (s[i] as int) >= 0x20,
    ensures
        json_escaped(s) == s,
    decreases s.len(),
{
    if s.len() > 0 {
        lemma_plain_json_escaped(s.drop_last());
        assert(s.drop_last().push(s.last()) =~= s);
    }
}

/// A websocket client for one exchange host.
#[derive(Debug, Clone, PartialEq, Eq)]
pub struct WebSocketMarketDataClient {
    pub base_url: String,
}

impl WebSocketMarketDataClient {
    /// A client for the host at `base_url`.
    pub fn new(base_url: &str) -> (client: Self)
        ensures
            client.base_url@ == base_url@,
    {
        WebSocketMarketDataClient { base_url: base_url.to_owned() }
    }

    /// The URL of the combined stream of `subscriptions`; an empty list is
    /// refused.
    pub fn build_combined_stream_url(&self, subscriptions: &[StreamSubscription]) -> (res: Result<
        String,
        String,
    >)
        ensures
            subscriptions@.len() == 0 ==> (res matches Err(e) && e@ == no_subscription_text()),
            subscriptions@.len() > 0 ==> (res matches Ok(url) && url@ == combined_stream_url(
                self.base_url@,
                stream_names(subscriptions@),
            )),
    {
        let n = subscriptions.len();
        if n == 0 {
            return Err("at least one websocket stream subscription is required".to_owned());
        }
        let base = trim_end_slashes_str(self.base_url.as_str());
        let mut url = base.to_owned();
        url.append("/stream?streams=");
        let ghost prefix = url@;
        let ghost names = stream_names(subscriptions@);
        let mut i: usize = 0;
        while i < n
            invariant
                n == subscriptions@.len(),
                i <= n,
                names == stream_names(subscriptions@),
                url@ == prefix + join(names.take(i as int), seq!['/']),
            decreases n - i,
        {
            if i > 0 {
                push_char(&mut url, '/');
            }
            url.append(subscriptions[i].stream_name.as_str());
            proof {
                if i > 0 {
                    lemma_join_step(names, seq!['/'], i as int);
                } else {
                    assert(join(names.take(1), seq!['/']) == names.take(1)[0]);
                    assert(join(names.take(0), seq!['/']) =~= Seq::<char>::empty());
                }
                assert(url@ =~= prefix + join(names.take(i + 1), seq!['/']));
            }
            i = i + 1;
        }
        assert(names.take(n as int) =~= names);
        assert(url@ =~= combined_stream_url(self.base_url@, names));
        Ok(url)
    }

    /// The subscribe request for `subscriptions` with id `request_id`; an
    /// empty list is refused.
    pub fn build_subscribe_message(
        &self,
        subscriptions: &[StreamSubscription],
        request_id: u64,
    ) -> (res: Result<String, String>)
        ensures
            subscriptions@.len() == 0 ==> (res matches Err(e) && e@ == no_subscription_text()),
            subscriptions@.len() > 0 ==> (res matches Ok(message) && message@
                == subscribe_message_text(stream_names(subscriptions@), request_id)),
    {
        let n = subscriptions.len();
        if n == 0 {
            return Err("at least one websocket stream subscription is required".to_owned());
        }
        let mut params: Vec<String> = Vec::new();
        let mut i: usize = 0;
        while i < n
            invariant
                n == subscriptions@.len(),
                i <= n,
                params@.len() == i,
                params@.map_values(|item: String| item@) =~= stream_names(subscriptions@).take(
                    i as int,
                ),
            decreases n - i,
        {
            let name = subscriptions[i].stream_name.clone();
            assert(name@ == stream_names(subscriptions@)[i as int]);
            let ghost old_params = params@;
            params.push(name);
            proof {
                let names = stream_names(subscriptions@);
                assert forall|j: int| 0 <= j < i implies params@[j]@ == names.take(
                    (i + 1) as int,
                )[j] by {
                    assert(params@[j] == old_params[j]);
                    assert(old_params.map_values(|item: String| item@)[j] == names.take(
                        i as int,
                    )[j]);
                }
                assert(params@.map_values(|item: String| item@) =~= names.take((i + 1) as int));
            }
            i = i + 1;
        }
        assert(stream_names(subscriptions@).take(n as int) =~= stream_names(subscriptions@));
        proof {
            reveal_strlit("id");
            reveal_strlit("method");
            reveal_strlit("params");
            reveal_strlit("SUBSCRIBE");
            reveal_strlit("{\"id\":");
            reveal_strlit(",\"method\":\"SUBSCRIBE\",\"params\":");
            reveal_strlit("}");
            assert(text_before("id"@, "method"@));
            assert(text_before("method"@, "params"@));
            lemma_plain_json_escaped("id"@);
            lemma_plain_json_escaped("method"@);
            lemma_plain_json_escaped("params"@);
            lemma_plain_json_escaped("SUBSCRIBE"@);
        }
        let message = json_object_text("id", request_id, "method", "SUBSCRIBE", "params", &params);
        assert(message@ =~= subscribe_message_text(stream_names(subscriptions@), request_id));
        Ok(message)
    }
}

/// A frame read from a websocket, as the read loop tells them apart: a text
/// payload (a binary frame already decoded as UTF-8), a ping, a close, or any
/// other frame.
#[derive(Debug, Clone, PartialEq, Eq)]
pub enum WebSocketFrame {
    Text(String),
    Ping,
    Close,
    Other,
}

/// What the read loop does after a frame.
#[derive(Debug, Clone, Copy, PartialEq, Eq, Structural)]
pub enum WebSocketReadStep {
    /// Keep reading while more messages are wanted.
    Continue,
    /// Answer the ping with a pong carrying its payload, then keep reading.
    SendPong,
    /// Stop reading.
    Finish,
}

/// The state of one bounded websocket read: how many text messages are
/// wanted and those collected so far.
pub struct WebSocketReadSession {
    max_messages: usize,
    messages: Vec<String>,
}

impl WebSocketReadSession {
    /// The number of messages wanted.
    pub closed spec fn max_spec(&self) -> nat {
        self.max_messages as nat
    }

    /// The messages collected so far, in arrival order.
    pub closed spec fn messages_spec(&self) -> Seq<Seq<char>> {
        self.messages@.map_values(|m: String| m@)
    }

    /// The session never holds more messages than it wants.
    pub open spec fn wf(&self) -> bool {
        self.messages_spec().len() <= self.max_spec()
    }

    /// A session wanting `max_messages` messages, none collected yet.
    pub fn new(max_messages: usize) -> (session: Self)
        ensures
            session.wf(),
            session.max_spec() == max_messages,
            session.messages_spec() == Seq::<Seq<char>>::empty(),
    {
        let session = WebSocketReadSession { max_messages, messages: Vec::new() };
        assert(session.messages_spec() =~= Seq::<Seq<char>>::empty());
        session
    }

    /// Whether enough messages were collected (always so when none are
    /// wanted, which spares the connection).
    pub fn is_complete(&self) -> (done: bool)
        ensures
            done == (self.messages_spec().len() >= self.max_spec()),
    {
        self.messages.len() >= self.max_messages
    }

    /// Takes one frame while more messages are wanted: a text payload is
    /// collected, a ping asks for a pong, a close ends the read, anything else
    /// is skipped.
    pub fn on_frame(&mut self, frame: WebSocketFrame) -> (step: WebSocketReadStep)
        requires
            old(self).wf(),
            old(self).messages_spec().len() < old(self).max_spec(),
        ensures
            final(self).wf(),
            final(self).max_spec() == old(self).max_spec(),
            match frame {
                WebSocketFrame::Text(payload) => final(self).messages_spec()
                    == old(self).messages_spec().push(payload@) && step
                    == WebSocketReadStep::Continue,
                WebSocketFrame::Ping => final(self).messages_spec() == old(self).messages_spec()
                    && step == WebSocketReadStep::SendPong,
                WebSocketFrame::Close => final(self).messages_spec()
                    == old(self).messages_spec() && step == WebSocketReadStep::Finish,
                WebSocketFrame::Other => final(self).messages_spec()
                    == old(self).messages_spec() && step == WebSocketReadStep::Continue,
            },
    {
        match frame {
            WebSocketFrame::Text(payload) => {
                let ghost before = self.messages_spec();
                self.messages.push(payload);
                assert(self.messages_spec() =~= before.push(payload@));
                WebSocketReadStep::Continue
            },
            WebSocketFrame::Ping => WebSocketReadStep::SendPong,
            WebSocketFrame::Close => WebSocketReadStep::Finish,
            WebSocketFrame::Other => WebSocketReadStep::Continue,
        }
    }

    /// The collected messages: never more than were wanted.
    pub fn into_messages(self) -> (messages: Vec<String>)
        requires
            self.wf(),
        ensures
            messages@.map_values(|m: String| m@) == self.messages_spec(),
            messages@.len() <= self.max_spec(),
    {
        self.messages
    }
}

} // verus!
