//! Server-side logic: the connection-identity allocator, routing of inbound
//! messages to the worker, and the worker itself — the one owner of the
//! "currently playing" state, answering queued requests strictly one at a
//! time and stopping right after it answers a shutdown request.

use vstd::prelude::*;
use crate::codec::{encode_message, encode_spec};
use crate::common::{Address, ConnId, Message, PlayReq, Request, Response, ServerRequest};

verus! {

/// Issues connection identities: strictly increasing, starting at zero, never
/// reused while the listener lives. The caller serializes access (one
/// allocator behind one lock).
pub struct Connections {
    next_conn_id: u64,
}

/// One allocation step: `pre` hands out `id` and becomes `post`.
pub open spec fn issues(pre: Connections, id: u64, post: Connections) -> bool {
    id == pre.next_id() && post.next_id() == pre.next_id() + 1
}

impl Connections {
    /// The identity the next open will receive.
    pub closed spec fn next_id(&self) -> u64 {
        self.next_conn_id
    }

    /// A fresh allocator; the first connection gets identity 0.
    pub fn new() -> (r: Connections)
        ensures
            r.next_id() == 0,
    {
        Connections { next_conn_id: 0 }
    }

    /// The identity the next open will receive, readable so a caller can keep
    /// clear of the counter's ceiling before asking for one.
    pub fn peek_next_id(&self) -> (id: u64)
        ensures
            id == self.next_id(),
    {
        self.next_conn_id
    }

    /// Hand out the next identity.
    pub fn next_conn_id(&mut self) -> (id: u64)
        requires
            old(self).next_id() < u64::MAX,
        ensures
            issues(*old(self), id, *final(self)),
    {
        let id = self.next_conn_id;
        self.next_conn_id = self.next_conn_id + 1;
        id
    }
}

impl Default for Connections {
    /// Same as `new`: the first identity is 0.
    fn default() -> (r: Connections)
        ensures
            r.next_id() == 0,
    {
        Connections::new()
    }
}

/// Law: along any run of the allocator — states `states`, where step `k`
/// issued `ids[k]` — the identities come out strictly increasing, so none is
/// ever repeated within one process lifetime.
pub proof fn lemma_conn_ids_strictly_increasing(states: Seq<Connections>, ids: Seq<u64>, i: int, j: int)
    requires
        states.len() == ids.len() + 1,
        forall|k: int| 0 <= k < ids.len() ==> issues(states[k], ids[k], states[k + 1]),
        0 <= i < j < ids.len(),
    ensures
        ids[i] < ids[j],
    decreases j - i,
{
    assert(issues(states[j - 1], ids[j - 1], states[j]));
    assert(issues(states[j], ids[j], states[j + 1]));
    if i == j - 1 {
    } else {
        lemma_conn_ids_strictly_increasing(states, ids, i, j - 1);
    }
}

/// A response together with the instruction to close the connection once the
/// response frame is flushed.
#[derive(Clone, Copy, Debug, PartialEq, Eq, Structural)]
pub struct ResponseWrapper {
    pub response: Response,
    pub shutdown: bool,
}

impl ResponseWrapper {
    /// Wrap a response; the connection stays open.
    pub fn new(response: Response) -> (r: ResponseWrapper)
        ensures
            r.response == response,
            !r.shutdown,
    {
        ResponseWrapper { response, shutdown: false }
    }

    /// The same response, now flagged to close the connection after the send.
    pub fn with_shutdown(self) -> (r: ResponseWrapper)
        ensures
            r.response == self.response,
            r.shutdown,
    {
        ResponseWrapper { response: self.response, shutdown: true }
    }
}

impl From<Response> for ResponseWrapper {
    /// Same as `new`: wraps the response without the close flag.
    fn from(response: Response) -> (r: ResponseWrapper) {
        ResponseWrapper::new(response)
    }
}

impl vstd::std_specs::convert::FromSpecImpl<Response> for ResponseWrapper {
    open spec fn obeys_from_spec() -> bool {
        true
    }

    open spec fn from_spec(response: Response) -> ResponseWrapper {
        ResponseWrapper { response, shutdown: false }
    }
}

/// The capability to answer exactly one request: it names the connection the
/// response must go back to. The I/O layer keeps the matching send handle,
/// keyed by this identity.
#[derive(Clone, Copy, Debug, PartialEq, Eq, Structural)]
pub struct CallCompletion {
    pub conn_id: ConnId,
}

/// One fully decided answer: which connection it goes to, what it says, and
/// whether that connection is to be closed once the frame is flushed.
#[derive(Clone, Copy, Debug, PartialEq, Eq, Structural)]
pub struct Completion {
    pub conn_id: ConnId,
    pub response: Response,
    pub shutdown: bool,
}

impl CallCompletion {
    /// Consume the capability: bind the wrapped response to the originating
    /// connection. Used exactly once per inbound request.
    pub fn complete(self, resp: ResponseWrapper) -> (c: Completion)
        ensures
            c == (Completion {
                conn_id: self.conn_id,
                response: resp.response,
                shutdown: resp.shutdown,
            }),
    {
        Completion { conn_id: self.conn_id, response: resp.response, shutdown: resp.shutdown }
    }
}

impl Completion {
    /// The frame to flush to the connection: this response as a wire message.
    pub fn frame(&self) -> (r: String)
        ensures
            r@ == encode_spec(Message::Response(self.response)),
    {
        encode_message(&Message::Response(self.response))
    }
}

/// Route one decoded inbound message: a request goes to the worker tagged
/// with the connection that sent it; a response from a client is ignored.
pub fn route_remote_call(msg: Message, conn_id: ConnId) -> (r: Option<ServerRequest>)
    ensures
        match msg {
            Message::Request(req) => r == Some(ServerRequest(req, conn_id)),
            Message::Response(_) => r is None,
        },
{
    match msg {
        Message::Request(req) => Some(ServerRequest(req, conn_id)),
        Message::Response(_) => None,
    }
}

/// The address recorded for a newly opened connection: the remote host as the
/// handshake reported it, or a placeholder when it did not. The remote port is
/// not known here, so it is recorded as 0.
pub fn address_for_open(remote: Option<String>) -> (a: Address)
    ensures
        match remote {
            Some(h) => a.host == h,
            None => a.host@ == "<unknown>"@,
        },
        a.port == 0,
{
    match remote {
        Some(h) => Address { host: h, port: 0 },
        None => Address { host: "<unknown>".to_owned(), port: 0 },
    }
}

/// Whether a transport shutdown callback should be forwarded: only the first
/// one per connection is. The flag records that it has fired.
pub fn shutdown_fires(already_fired: &mut bool) -> (fire: bool)
    ensures
        fire == !*old(already_fired),
        *final(already_fired),
{
    if *already_fired {
        false
    } else {
        *already_fired = true;
        true
    }
}

/// Whether this unit of work is a shutdown request.
pub open spec fn is_shutdown(req: ServerRequest) -> bool {
    req.0 matches Request::Shutdown
}

/// The answer every request receives, routed to the connection that sent it;
/// only a shutdown request flags its connection to be closed after the send.
pub open spec fn completion_of(req: ServerRequest) -> Completion {
    Completion {
        conn_id: req.1,
        response: Response::Okay,
        shutdown: is_shutdown(req),
    }
}

/// What the worker's run produces for a queue of requests: answers in queue
/// order, one per request, stopping right after the answer to the first
/// shutdown request; everything queued behind it stays unprocessed.
pub open spec fn process_spec(reqs: Seq<ServerRequest>) -> Seq<Completion>
    decreases reqs.len(),
{
    if reqs.len() == 0 {
        Seq::empty()
    } else if is_shutdown(reqs[0]) {
        seq![completion_of(reqs[0])]
    } else {
        seq![completion_of(reqs[0])] + process_spec(reqs.drop_first())
    }
}

/// The worker: sole owner of the "currently playing" slot. It processes one
/// request at a time, which is the system's whole consistency story — the
/// slot never needs a lock.
pub struct PlayerThread {
    pub currently_playing: Option<String>,
    pub shutdown: bool,
}

impl PlayerThread {
    /// A fresh worker: nothing playing, not shutting down.
    pub fn new() -> (r: PlayerThread)
        ensures
            r.currently_playing is None,
            !r.shutdown,
    {
        PlayerThread { currently_playing: None, shutdown: false }
    }

    /// The playback branch. Playback itself is a collaborator stub, so the
    /// state is untouched; the request is answered with success and the
    /// connection stays open.
    fn play(&mut self, play_info: PlayReq, call_completion: CallCompletion) -> (c: Completion)
        ensures
            *final(self) == *old(self),
            c == (Completion {
                conn_id: call_completion.conn_id,
                response: Response::Okay,
                shutdown: false,
            }),
    {
        let _ = play_info;
        call_completion.complete(ResponseWrapper::new(Response::Okay))
    }

    /// Decide one request: every request is answered with success, routed to
    /// its own connection; a shutdown request additionally sets the worker's
    /// shutdown flag and flags the connection to close after the send.
    pub fn on_remote_call(&mut self, request: Request, call_completion: CallCompletion) -> (c:
        Completion)
        ensures
            c == completion_of(ServerRequest(request, call_completion.conn_id)),
            final(self).shutdown == (old(self).shutdown || request matches Request::Shutdown),
            final(self).currently_playing == old(self).currently_playing,
    {
        match request {
            Request::Play(play_info) => self.play(play_info, call_completion),
            Request::Shutdown => {
                self.shutdown = true;
                call_completion.complete(ResponseWrapper::new(Response::Okay).with_shutdown())
            },
        }
    }

    /// Answer a queue of requests in order, one at a time, stopping right
    /// after the first shutdown request is answered. Returns the answers in
    /// the order they are flushed.
    pub fn process(&mut self, requests: Vec<ServerRequest>) -> (out: Vec<Completion>)
        requires
            !old(self).shutdown,
        ensures
            out@ == process_spec(requests@),
            final(self).currently_playing == old(self).currently_playing,
            final(self).shutdown == exists|k: int|
                0 <= k < requests@.len() && is_shutdown(#[trigger] requests@[k]),
    {
        let mut out: Vec<Completion> = Vec::new();
        let mut i: usize = 0;
        let mut done: bool = false;
        while !done && i < requests.len()
            invariant
                i <= requests@.len(),
                self.currently_playing == old(self).currently_playing,
                out@ == process_spec(requests@.take(i as int)),
                done == self.shutdown,
                !done ==> forall|k: int|
                    0 <= k < i ==> !is_shutdown(#[trigger] requests@[k]),
                done ==> 1 <= i && is_shutdown(requests@[i - 1])
                    && process_spec(requests@) == process_spec(requests@.take(i as int)),
            decreases requests@.len() - i,
        {
            let req = requests[i];
            let c = self.on_remote_call(req.0, CallCompletion { conn_id: req.1 });
            out.push(c);
            i += 1;
            proof {
                let s = requests@;
                let prev = s.take(i - 1);
                let cur = s.take(i as int);
                assert(cur.drop_last() =~= prev);
                assert(cur.last() == s[i - 1]);
                if is_shutdown(s[i - 1]) {
                    lemma_shutdown_stops_processing(cur, i - 1);
                    lemma_shutdown_stops_processing(s, i - 1);
                    lemma_every_request_answered(prev);
                    assert(out@ =~= process_spec(cur));
                    assert(process_spec(s) =~= process_spec(cur));
                } else {
                    lemma_every_request_answered(cur);
                    lemma_every_request_answered(prev);
                    assert(out@ =~= process_spec(cur));
                }
            }
            if self.shutdown {
                done = true;
            }
        }
        proof {
            if !done {
                assert(requests@.take(requests@.len() as int) =~= requests@);
            }
        }
        out
    }
}

/// Law: when no shutdown is queued, the worker answers every request — one
/// success per request, each routed to the connection that sent it, and none
/// flagged to close.
pub proof fn lemma_every_request_answered(reqs: Seq<ServerRequest>)
    requires
        forall|k: int| 0 <= k < reqs.len() ==> !is_shutdown(#[trigger] reqs[k]),
    ensures
        process_spec(reqs).len() == reqs.len(),
        forall|k: int| 0 <= k < reqs.len() ==> process_spec(reqs)[k] == completion_of(reqs[k]),
        forall|k: int| 0 <= k < reqs.len() ==> (#[trigger] process_spec(reqs)[k]).conn_id
            == reqs[k].1,
    decreases reqs.len(),
{
    if reqs.len() > 0 {
        assert(!is_shutdown(reqs[0]));
        lemma_every_request_answered(reqs.drop_first());
    }
}

/// Law: the shutdown protocol is complete-then-stop. The first shutdown
/// request in the queue — position `k` — is answered like every request
/// before it, its answer goes to its own connection flagged to close only
/// after the response is flushed, and nothing queued behind it is processed.
pub proof fn lemma_shutdown_stops_processing(reqs: Seq<ServerRequest>, k: int)
    requires
        0 <= k < reqs.len(),
        is_shutdown(reqs[k]),
        forall|j: int| 0 <= j < k ==> !is_shutdown(#[trigger] reqs[j]),
    ensures
        process_spec(reqs).len() == k + 1,
        forall|j: int| 0 <= j <= k ==> process_spec(reqs)[j] == completion_of(reqs[j]),
        process_spec(reqs)[k].conn_id == reqs[k].1,
        process_spec(reqs)[k].response == Response::Okay,
        process_spec(reqs)[k].shutdown,
    decreases k,
{
    if k == 0 {
    } else {
        assert(!is_shutdown(reqs[0]));
        lemma_shutdown_stops_processing(reqs.drop_first(), k - 1);
    }
}

} // verus!
