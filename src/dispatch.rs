use crate::admission::{Admission, ConcurrencyCap, Permit, Signal};
use crate::error::ConnectorError;
use crate::pool::TransportPool;
use crate::value::{entries_insert, Object, Value};
use vstd::prelude::*;
use vstd::string::StringExecFns;

verus! {

/// The stream every reply of this connector belongs to.
pub const DEFAULT_STREAM_ID: u64 = 0;

/// The status a reply carries when a response could not be decoded.
pub const UNPROCESSABLE_STATUS: i64 = 415;

/// How long, in milliseconds, a pull waits for a reply before handing control
/// back.
pub const SOURCE_RECV_TIMEOUT_MS: u64 = 100;

/// Where a reply comes from.
#[derive(Debug, PartialEq, Clone)]
pub struct OriginUri {
    pub scheme: String,
    pub host: String,
    pub port: Option<u16>,
    pub path: Vec<String>,
}

/// The outcome of one exchange, as handed to the reader.
#[derive(Debug, PartialEq)]
pub struct DeliveryReply {
    pub origin: OriginUri,
    pub value: Value,
    pub meta: Value,
    pub stream: u64,
    pub port: Option<String>,
}

/// What the network exchange of a spawned task gave.
#[derive(Debug)]
pub enum ExchangeOutcome {
    /// The response was decoded into these replies.
    Valid(Vec<DeliveryReply>),
    /// The response could not be decoded.
    CodecError,
    /// The exchange failed at the transport level.
    Failed,
}

/// `r` is the reply that makes a decode failure visible downstream: the
/// unprocessable status, with the request's metadata under `request`.
pub open spec fn is_failure_reply(r: DeliveryReply, request_meta: Value, origin: OriginUri) -> bool {
    &&& r.origin == origin
    &&& r.stream == DEFAULT_STREAM_ID
    &&& r.port is None
    &&& r.value matches Value::Object(o) && o.wf() && o.entries() == seq![
        ("status"@, Value::I64(UNPROCESSABLE_STATUS)),
    ]
    &&& r.meta matches Value::Object(m) && m.wf() && m.entries() == seq![("request"@, request_meta)]
}

/// An object with the single entry `k: v`.
fn single_entry_object(k: &str, v: Value) -> (r: Value)
    ensures
        r matches Value::Object(o) && o.wf() && o.entries() == seq![(k@, v)],
{
    let mut o = Object::new();
    o.insert(k.to_owned(), v);
    proof {
        assert(entries_insert(Seq::empty(), k@, v) == seq![(k@, v)]);
    }
    Value::Object(o)
}

/// The replies a spawned task sends for the outcome of its exchange: every
/// decoded reply, exactly one failure reply for a decode failure, none for
/// a transport failure.
pub fn replies_for(outcome: ExchangeOutcome, request_meta: Value, origin: OriginUri) -> (r: Vec<
    DeliveryReply,
>)
    ensures
        match outcome {
            ExchangeOutcome::Valid(v) => r@ == v@,
            ExchangeOutcome::CodecError => r@.len() == 1 && is_failure_reply(
                r@[0],
                request_meta,
                origin,
            ),
            ExchangeOutcome::Failed => r@.len() == 0,
        },
{
    match outcome {
        ExchangeOutcome::Valid(v) => v,
        ExchangeOutcome::CodecError => {
            let value = single_entry_object("status", Value::I64(UNPROCESSABLE_STATUS));
            let meta = single_entry_object("request", request_meta);
            let mut out: Vec<DeliveryReply> = Vec::new();
            out.push(
                DeliveryReply { origin, value, meta, stream: DEFAULT_STREAM_ID, port: None },
            );
            out
        },
        ExchangeOutcome::Failed => Vec::new(),
    }
}

/// What waiting on the delivery channel gave.
#[derive(Debug)]
pub enum Received {
    Reply(DeliveryReply),
    /// Nothing arrived within the timeout.
    TimedOut,
    /// Every sender is gone.
    Closed,
}

/// The reader side of the connector: takes replies off the delivery channel.
pub struct HttpRequestSource {}

impl HttpRequestSource {
    pub fn new() -> (r: Self) {
        HttpRequestSource {  }
    }

    /// The result of one pull: a reply, `None` when the wait timed out (the
    /// caller may pull again), an error when the channel is closed.
    pub fn pull_data(&mut self, received: Received) -> (r: Result<
        Option<DeliveryReply>,
        ConnectorError,
    >)
        ensures
            match received {
                Received::Reply(d) => r == Ok::<Option<DeliveryReply>, ConnectorError>(Some(d)),
                Received::TimedOut => r == Ok::<Option<DeliveryReply>, ConnectorError>(None),
                Received::Closed => r == Err::<Option<DeliveryReply>, ConnectorError>(
                    ConnectorError::ChannelClosed,
                ),
            },
    {
        match received {
            Received::Reply(d) => Ok(Some(d)),
            Received::TimedOut => Ok(None),
            Received::Closed => Err(ConnectorError::ChannelClosed),
        }
    }

    /// Each reply can be acknowledged or rejected on its own.
    pub fn is_transactional(&self) -> (r: bool)
        ensures
            r,
    {
        true
    }

    /// Replies arrive independently of the cadence of pulls.
    pub fn asynchronous(&self) -> (r: bool)
        ensures
            r,
    {
        true
    }
}

/// What the dispatcher decided for one inbound event.
#[derive(Debug)]
pub enum Dispatch<C> {
    /// Spawn a task that holds the permit and performs the exchange with
    /// the client.
    Spawn { permit: Permit, client: C },
    /// No client is available: the dispatch fails. The permit taken for it
    /// was given back, which may give a signal to send upstream.
    NoClient { signal: Option<Signal> },
    /// Every slot is taken: wait for a task to end, then try again. Holds the
    /// signal to send upstream, if any.
    Saturated { signal: Option<Signal> },
}

/// What became of a spawn decision once its request was built.
#[derive(Debug)]
pub enum Prepared<C, R> {
    /// Spawn the task with these.
    Ready { permit: Permit, client: C, request: R },
    /// The dispatch fails with `error`; the slot was given back, which may
    /// give a signal to send upstream.
    Failed { error: ConnectorError, signal: Option<Signal> },
}

/// The placeholder origin a sink starts with: scheme `rest_client`, host
/// `dummy`, no port, an empty path.
pub open spec fn is_default_origin(o: OriginUri) -> bool {
    &&& o.scheme@ == "rest_client"@
    &&& o.host@ == "dummy"@
    &&& o.port is None
    &&& o.path@.len() == 0
}

/// The dispatcher side of the connector.
pub struct HttpRequestSink<C> {
    clients: TransportPool<C>,
    concurrency_cap: ConcurrencyCap,
    origin_uri: OriginUri,
}

impl<C: Clone> HttpRequestSink<C> {
    pub closed spec fn pool(&self) -> TransportPool<C> {
        self.clients
    }

    pub closed spec fn cap(&self) -> ConcurrencyCap {
        self.concurrency_cap
    }

    /// The origin every reply of this sink carries.
    pub closed spec fn origin(&self) -> OriginUri {
        self.origin_uri
    }

    pub open spec fn wf(&self) -> bool {
        self.pool().wf() && self.cap().wf()
    }

    /// The pool after the replacement, if any, was taken: a replacement
    /// swaps the whole pool.
    pub open spec fn refreshed(pool: TransportPool<C>, replacement: Option<Vec<C>>) -> bool {
        match replacement {
            Some(v) => pool.clients() == v@ && pool.cursor() == 0,
            None => true,
        }
    }

    /// A sink with an empty pool (no client until the first refresh), no
    /// permit out, and the placeholder origin.
    pub fn new(max_in_flight_requests: usize) -> (r: Self)
        requires
            max_in_flight_requests >= 1,
        ensures
            r.wf(),
            r.pool().clients().len() == 0,
            r.pool().cursor() == 0,
            r.cap().max() == max_in_flight_requests,
            r.cap().live() == 0,
            r.cap().outstanding() == vstd::multiset::Multiset::<u64>::empty(),
            !r.cap().is_closed(),
            is_default_origin(r.origin()),
    {
        let scheme = String::from_str("rest_client");
        let host = String::from_str("dummy");
        HttpRequestSink {
            clients: TransportPool::new(Vec::new()),
            concurrency_cap: ConcurrencyCap::new(max_in_flight_requests),
            origin_uri: OriginUri { scheme, host, port: None, path: Vec::new() },
        }
    }

    /// The origin the replies of this sink carry.
    pub fn origin_uri(&self) -> (r: &OriginUri)
        ensures
            *r == self.origin(),
    {
        &self.origin_uri
    }

    /// Takes a waiting replacement of the pool, if there is one. The pool is
    /// replaced as a whole, never edited in place.
    pub fn refresh_clients(&mut self, replacement: Option<Vec<C>>)
        requires
            old(self).wf(),
        ensures
            final(self).wf(),
            final(self).cap() == old(self).cap(),
            final(self).origin() == old(self).origin(),
            replacement is None ==> final(self).pool() == old(self).pool(),
            Self::refreshed(final(self).pool(), replacement),
    {
        match replacement {
            Some(v) => {
                self.clients = TransportPool::new(v);
            },
            None => {},
        }
    }

    /// Decides what to do with one inbound event: take a waiting pool
    /// replacement, reserve a slot, then pick the next client.
    pub fn on_event(&mut self, replacement: Option<Vec<C>>) -> (r: Dispatch<C>)
        requires
            old(self).wf(),
        ensures
            final(self).wf(),
            final(self).cap().max() == old(self).cap().max(),
            final(self).origin() == old(self).origin(),
            ({
                let pc = if replacement is Some {
                    replacement->Some_0@
                } else {
                    old(self).pool().clients()
                };
                let pcur = if replacement is Some {
                    0
                } else {
                    old(self).pool().cursor()
                };
                let c0 = old(self).cap();
                let c1 = final(self).cap();
                if c0.live() < c0.max() {
                    if pc.len() > 0 {
                        &&& r is Spawn
                        &&& ConcurrencyCap::acquire_step(
                            c0,
                            c1,
                            Admission::Granted(r->Spawn_permit),
                        )
                        &&& final(self).pool().clients() == pc
                        &&& final(self).pool().cursor() == (pcur + 1) % (pc.len() as int)
                        &&& vstd::pervasive::cloned(pc[pcur], r->Spawn_client)
                    } else {
                        &&& r is NoClient
                        &&& c1.live() == c0.live()
                        &&& c1.outstanding() == c0.outstanding()
                        &&& !c1.is_closed()
                        &&& r->NoClient_signal == (if c0.is_closed() {
                            Some(Signal::Restore)
                        } else {
                            None
                        })
                        &&& final(self).pool().clients() == pc
                        &&& final(self).pool().cursor() == pcur
                    }
                } else {
                    &&& r is Saturated
                    &&& ConcurrencyCap::acquire_step(
                        c0,
                        c1,
                        Admission::Saturated(r->Saturated_signal),
                    )
                    &&& final(self).pool().clients() == pc
                    &&& final(self).pool().cursor() == pcur
                }
            }),
    {
        self.refresh_clients(replacement);
        match self.concurrency_cap.acquire() {
            Admission::Granted(permit) => {
                match self.clients.next() {
                    Some(client) => Dispatch::Spawn { permit, client },
                    None => {
                        let signal = self.concurrency_cap.release(permit);
                        Dispatch::NoClient { signal }
                    },
                }
            },
            Admission::Saturated(signal) => Dispatch::Saturated { signal },
        }
    }

    /// A task ended, whatever its outcome: its slot is given back.
    pub fn task_done(&mut self, permit: Permit) -> (r: Option<Signal>)
        requires
            old(self).wf(),
            old(self).cap().outstanding().count(permit.spec_num()) > 0,
        ensures
            final(self).wf(),
            final(self).pool() == old(self).pool(),
            final(self).origin() == old(self).origin(),
            ConcurrencyCap::release_step(old(self).cap(), final(self).cap(), permit.spec_num(), r),
    {
        self.concurrency_cap.release(permit)
    }

    /// Takes the outcome of building the request (and looking up the codec
    /// and processors) for a spawn decision. A built request goes ahead with
    /// the permit and client; a failed build fails the whole dispatch, gives
    /// the slot back and spawns nothing.
    pub fn prepare<R>(&mut self, permit: Permit, client: C, built: Result<R, ConnectorError>) -> (r:
        Prepared<C, R>)
        requires
            old(self).wf(),
            old(self).cap().outstanding().count(permit.spec_num()) > 0,
        ensures
            final(self).wf(),
            final(self).pool() == old(self).pool(),
            final(self).origin() == old(self).origin(),
            match built {
                Ok(request) => {
                    &&& r is Ready
                    &&& r->Ready_permit.spec_num() == permit.spec_num()
                    &&& r->Ready_client == client
                    &&& r->Ready_request == request
                    &&& final(self).cap() == old(self).cap()
                },
                Err(e) => {
                    &&& r is Failed
                    &&& r->Failed_error == e
                    &&& ConcurrencyCap::release_step(
                        old(self).cap(),
                        final(self).cap(),
                        permit.spec_num(),
                        r->Failed_signal,
                    )
                },
            },
    {
        match built {
            Ok(request) => Prepared::Ready { permit, client, request },
            Err(error) => {
                let signal = self.concurrency_cap.release(permit);
                Prepared::Failed { error, signal }
            },
        }
    }

    /// A signal only refreshes the pool; it never dispatches.
    pub fn on_signal(&mut self, replacement: Option<Vec<C>>)
        requires
            old(self).wf(),
        ensures
            final(self).wf(),
            final(self).cap() == old(self).cap(),
            final(self).origin() == old(self).origin(),
            replacement is None ==> final(self).pool() == old(self).pool(),
            Self::refreshed(final(self).pool(), replacement),
    {
        self.refresh_clients(replacement)
    }

    /// Inbound events are acknowledged once handed to a task.
    pub fn auto_ack(&self) -> (r: bool)
        ensures
            r,
    {
        true
    }
}

} // verus!
