//! The operations that the relay offers, as functions from the state and a
//! request to the new state and a reply.

use crate::clock::{rfc3339_now, utc_now, Moment, EPOCH_RANGE};
use crate::middleware::{authorized, presented, Auth};
use crate::store::{matching, others};
use crate::structs::{elapsed_seconds, AppState, Item, Meta, WebError, WebHealth};
use crate::uptime::uptime_text;
use vstd::prelude::*;
use vstd::string::StringExecFns;

verus! {

/// The largest request body, in bytes, that is read: 256 KiB.
pub const MAX_PAYLOAD_SIZE: usize = 262_144;

/// What a request is answered with.
#[derive(Debug)]
pub enum Reply {
    /// 200, with the uptime as its body.
    Health(WebHealth),
    /// 200, with a JSON array of items as its body.
    Items(Vec<Item>),
    /// 204, without a body.
    NoContent,
    /// 400, for a body over `MAX_PAYLOAD_SIZE`.
    PayloadOverflow,
    /// 400, with a report of what was wrong with the JSON.
    BadJson(WebError),
    /// 401, without a body.
    Unauthorized,
}

impl Reply {
    /// The HTTP status code of the reply.
    pub open spec fn status_code(self) -> int {
        match self {
            Reply::Health(_) => 200,
            Reply::Items(_) => 200,
            Reply::NoContent => 204,
            Reply::PayloadOverflow => 400,
            Reply::BadJson(_) => 400,
            Reply::Unauthorized => 401,
        }
    }

    /// The HTTP status code of the reply.
    pub fn status(&self) -> (code: u16)
        ensures
            code == self.status_code(),
    {
        match self {
            Reply::Health(_) => 200,
            Reply::Items(_) => 200,
            Reply::NoContent => 204,
            Reply::PayloadOverflow => 400,
            Reply::BadJson(_) => 400,
            Reply::Unauthorized => 401,
        }
    }
}

/// The chunks of a body, joined in the order of their arrival.
pub open spec fn joined(chunks: Seq<Vec<u8>>) -> Seq<u8>
    decreases chunks.len(),
{
    if chunks.len() == 0 {
        Seq::empty()
    } else {
        joined(chunks.drop_last()) + chunks.last()@
    }
}

/// `actix_web::web::BytesMut`, the buffer that a body is read into.
#[verifier::external_type_specification]
#[verifier::external_body]
pub struct ExBytesMut(actix_web::web::BytesMut);

/// The bytes that a buffer holds, in order.
pub uninterp spec fn buffered(body: actix_web::web::BytesMut) -> Seq<u8>;

/// `BytesMut::new`: a buffer that holds nothing.
pub assume_specification[ actix_web::web::BytesMut::new ]() -> (body: actix_web::web::BytesMut)
    ensures
        buffered(body) == Seq::<u8>::empty(),
;

/// `BytesMut::len`: the number of bytes that the buffer holds.
pub assume_specification[ actix_web::web::BytesMut::len ](body: &actix_web::web::BytesMut) -> (len:
    usize)
    ensures
        len == buffered(*body).len(),
;

/// `BytesMut::extend_from_slice`: the bytes of `extend` are copied behind
/// those that the buffer holds. It reserves room first, which panics where
/// the capacity asked for overflows; a new length that an `isize` holds asks
/// for no such capacity.
pub assume_specification[ actix_web::web::BytesMut::extend_from_slice ](
    body: &mut actix_web::web::BytesMut,
    extend: &[u8],
)
    requires
        buffered(*old(body)).len() + extend@.len() <= isize::MAX,
    ensures
        buffered(*final(body)) == buffered(*old(body)) + extend@,
;

/// Takes one more chunk into `body` if the body stays within
/// `MAX_PAYLOAD_SIZE` with it, and says whether it did. A chunk that does
/// not fit leaves `body` as it was.
pub fn extend_payload(body: &mut actix_web::web::BytesMut, chunk: &[u8]) -> (fits: bool)
    ensures
        fits == (buffered(*old(body)).len() + chunk@.len() <= MAX_PAYLOAD_SIZE),
        fits ==> buffered(*final(body)) == buffered(*old(body)) + chunk@,
        !fits ==> *final(body) == *old(body),
{
    if chunk.len() > MAX_PAYLOAD_SIZE || body.len() > MAX_PAYLOAD_SIZE - chunk.len() {
        return false;
    }
    body.extend_from_slice(chunk);
    true
}

/// Reads a body that arrives in chunks: the chunks joined, unless they come
/// to more than `MAX_PAYLOAD_SIZE` bytes.
pub fn read_payload(chunks: &Vec<Vec<u8>>) -> (body: Option<actix_web::web::BytesMut>)
    ensures
        body is Some <==> joined(chunks@).len() <= MAX_PAYLOAD_SIZE,
        body is Some ==> buffered(body->0) == joined(chunks@),
{
    let mut body = actix_web::web::BytesMut::new();
    let mut i: usize = 0;
    while i < chunks.len()
        invariant
            i <= chunks.len(),
            buffered(body) == joined(chunks@.take(i as int)),
            buffered(body).len() <= MAX_PAYLOAD_SIZE,
        decreases chunks.len() - i,
    {
        proof {
            lemma_joined_grows(chunks@, i + 1);
            assert(chunks@.take(i + 1).drop_last() == chunks@.take(i as int));
            assert(chunks@.take(i + 1).last() == chunks@[i as int]);
        }
        if !extend_payload(&mut body, chunks[i].as_slice()) {
            return None;
        }
        i += 1;
    }
    assert(chunks@.take(chunks@.len() as int) == chunks@);
    Some(body)
}

/// A body is at least as long as any of its beginnings.
pub proof fn lemma_joined_grows(chunks: Seq<Vec<u8>>, n: int)
    requires
        0 <= n <= chunks.len(),
    ensures
        joined(chunks.take(n)).len() <= joined(chunks).len(),
    decreases chunks.len(),
{
    if n < chunks.len() {
        lemma_joined_grows(chunks.drop_last(), n);
        assert(chunks.drop_last().take(n) == chunks.take(n));
    } else {
        assert(chunks.take(n) == chunks);
    }
}

/// What came of reading the body of a request that adds an item.
#[derive(Debug)]
pub enum Upload {
    /// The body was over `MAX_PAYLOAD_SIZE`.
    Overflow,
    /// The body was not the JSON of an item; the text says why.
    Malformed(String),
    /// The body was the JSON of this item.
    Parsed(Item),
}

/// A request, as far as the relay's answer depends on it.
#[derive(Debug)]
pub enum Request {
    Health,
    Auth,
    AddItem(Upload),
    GetItems(String),
    FetchItems(String),
}

impl Request {
    /// Whether the request has to pass the guard. Only the health check is
    /// open to all.
    pub open spec fn is_protected(self) -> bool {
        !(self is Health)
    }
}

/// The text that introduces the report of a JSON error.
pub open spec fn parse_failure(reason: Seq<char>) -> Seq<char> {
    "failed to parse json. "@ + reason
}

/// Appends `payload_item` to the queue store.
pub fn push_new_item(data: &mut AppState, payload_item: Item)
    ensures
        final(data).item_queue@ == old(data).item_queue@.push(payload_item),
        final(data).start_time == old(data).start_time,
        final(data).api_keys == old(data).api_keys,
{
    data.item_queue.insert(payload_item);
}

/// The record of a receipt at the moment `now`: its whole seconds since the
/// Unix epoch.
pub fn metadata_at(now: &Moment) -> (meta: Meta)
    ensures
        meta.received_epoch == now.whole_seconds(),
        -EPOCH_RANGE < meta.received_epoch < EPOCH_RANGE,
{
    Meta { received_epoch: now.epoch_seconds() }
}

/// The record of a receipt at the current time of the system clock. Which
/// moment that is, only the clock says; the record holds its whole seconds.
pub fn generate_metadata() -> (meta: Meta)
    ensures
        exists|now: Moment| meta.received_epoch == now.whole_seconds(),
        -EPOCH_RANGE < meta.received_epoch < EPOCH_RANGE,
{
    let now = utc_now();
    metadata_at(&now)
}

/// Whether `reply` and `after` are the answer to a health check, made at
/// some moment, and the state after it.
pub open spec fn health_outcome(before: AppState, reply: Reply, after: AppState) -> bool {
    &&& after == before
    &&& reply matches Reply::Health(body)
    &&& exists|now: Moment| body.uptime@ == uptime_text(elapsed_seconds(before.start_time, now))
}

/// Answers a health check with the uptime.
pub fn health(data: &AppState) -> (reply: Reply)
    ensures
        health_outcome(*data, reply, *data),
{
    Reply::Health(WebHealth { uptime: data.uptime() })
}

/// Answers the probe of a credential that has passed the guard.
pub fn auth() -> (reply: Reply)
    ensures
        reply == Reply::NoContent,
{
    Reply::NoContent
}

/// Whether `reply` and `after` are the outcome of storing `item`, received
/// at second `received_epoch` of the Unix epoch: the item stands last in the
/// store, with that time as its only metadata.
pub open spec fn stored_outcome(
    before: AppState,
    item: Item,
    received_epoch: i64,
    reply: Reply,
    after: AppState,
) -> bool {
    &&& reply == Reply::NoContent
    &&& after.item_queue@ == before.item_queue@.push(
        Item { meta: Some(Meta { received_epoch }), ..item },
    )
    &&& after.start_time == before.start_time
    &&& after.api_keys == before.api_keys
}

/// Whether `reply` and `after` are the outcome of turning down a body for
/// the given reason.
pub open spec fn refused_outcome(
    before: AppState,
    reason: Seq<char>,
    reply: Reply,
    after: AppState,
) -> bool {
    &&& after == before
    &&& reply matches Reply::BadJson(body)
    &&& body.error@ == parse_failure(reason)
}

/// Whether `reply` and `after` are an outcome of a request to add an item.
pub open spec fn add_item_outcome(
    before: AppState,
    upload: Upload,
    reply: Reply,
    after: AppState,
) -> bool {
    match upload {
        Upload::Overflow => reply == Reply::PayloadOverflow && after == before,
        Upload::Malformed(reason) => refused_outcome(before, reason@, reply, after),
        Upload::Parsed(item) => exists|received_epoch: i64|
            -EPOCH_RANGE < received_epoch < EPOCH_RANGE && stored_outcome(
                before,
                item,
                received_epoch,
                reply,
                after,
            ),
    }
}

/// Stores `item` as received at second `received_epoch` of the Unix epoch.
/// Metadata that the item came with is replaced.
pub fn store_item(data: &mut AppState, item: Item, received_epoch: i64) -> (reply: Reply)
    ensures
        stored_outcome(*old(data), item, received_epoch, reply, *final(data)),
{
    push_new_item(data, item.stamped(received_epoch));
    Reply::NoContent
}

/// The reply to a body that is not the JSON of an item: the reason, with the
/// time of the failure as `timestamp`.
pub fn refuse_item(reason: &String, timestamp: String) -> (reply: Reply)
    ensures
        reply matches Reply::BadJson(body) && body.timestamp == timestamp && body.error@
            == parse_failure(reason@),
{
    let error = String::from_str("failed to parse json. ").concat(reason.as_str());
    Reply::BadJson(WebError { timestamp, error })
}

/// Adds an item: stores what was parsed from the body, with the time of
/// receipt by the system clock, or reports why there is nothing to store.
pub fn add_item(data: &mut AppState, upload: Upload) -> (reply: Reply)
    ensures
        add_item_outcome(*old(data), upload, reply, *final(data)),
{
    match upload {
        Upload::Overflow => Reply::PayloadOverflow,
        Upload::Malformed(reason) => refuse_item(&reason, rfc3339_now()),
        Upload::Parsed(item) => {
            let meta = generate_metadata();
            store_item(data, item, meta.received_epoch)
        },
    }
}

/// Whether `reply` and `after` are the outcome of a preview of `queue`.
pub open spec fn get_items_outcome(
    before: AppState,
    queue: Seq<char>,
    reply: Reply,
    after: AppState,
) -> bool {
    &&& after == before
    &&& reply matches Reply::Items(items)
    &&& items@ == matching(before.item_queue@, queue)
}

/// Previews a queue: copies of its items, oldest first. The store stays as
/// it is; an empty queue gives an empty list.
pub fn get_items(data: &AppState, path: &String) -> (reply: Reply)
    ensures
        get_items_outcome(*data, path@, reply, *data),
{
    Reply::Items(data.item_queue.peek(path))
}

/// Whether `reply` and `after` are the outcome of fetching `queue`.
pub open spec fn fetch_items_outcome(
    before: AppState,
    queue: Seq<char>,
    reply: Reply,
    after: AppState,
) -> bool {
    &&& after.item_queue@ == others(before.item_queue@, queue)
    &&& after.start_time == before.start_time
    &&& after.api_keys == before.api_keys
    &&& if matching(before.item_queue@, queue).len() == 0 {
        reply == Reply::NoContent
    } else {
        reply matches Reply::Items(items) && items@ == matching(before.item_queue@, queue)
    }
}

/// Fetches a queue: removes its items from the store and returns them,
/// oldest first. An empty queue gives no content.
pub fn fetch_items(data: &mut AppState, path: &String) -> (reply: Reply)
    ensures
        fetch_items_outcome(*old(data), path@, reply, *final(data)),
{
    let return_items = data.item_queue.drain(path);
    if return_items.is_empty() {
        Reply::NoContent
    } else {
        Reply::Items(return_items)
    }
}

/// Whether `reply` and `after` are an outcome of `request`, made with the
/// given authorization header on the state `before`.
pub open spec fn outcome(
    before: AppState,
    authorization: Option<Seq<u8>>,
    request: Request,
    reply: Reply,
    after: AppState,
) -> bool {
    if request.is_protected() && !authorized(before.api_keys@, authorization) {
        reply == Reply::Unauthorized && after == before
    } else {
        match request {
            Request::Health => health_outcome(before, reply, after),
            Request::Auth => reply == Reply::NoContent && after == before,
            Request::AddItem(upload) => add_item_outcome(before, upload, reply, after),
            Request::GetItems(queue) => get_items_outcome(before, queue@, reply, after),
            Request::FetchItems(queue) => fetch_items_outcome(before, queue@, reply, after),
        }
    }
}

/// Open mode: under an empty allow-list no request is turned away, and what
/// comes of a request does not depend on the credential it carries.
pub proof fn law_open_mode_serves(
    before: AppState,
    authorization: Option<Seq<u8>>,
    other: Option<Seq<u8>>,
    request: Request,
    reply: Reply,
    after: AppState,
)
    requires
        before.api_keys@.len() == 0,
        outcome(before, authorization, request, reply, after),
    ensures
        reply != Reply::Unauthorized,
        outcome(before, other, request, reply, after),
{
}

/// A request that does not pass the guard is answered as unauthorized and
/// leaves the state, the store with it, as it was.
pub proof fn law_turned_away(
    before: AppState,
    authorization: Option<Seq<u8>>,
    request: Request,
    reply: Reply,
    after: AppState,
)
    requires
        request.is_protected(),
        !authorized(before.api_keys@, authorization),
        outcome(before, authorization, request, reply, after),
    ensures
        reply == Reply::Unauthorized,
        after == before,
{
}

/// Serves one request: puts it to the guard unless it is a health check, and
/// carries it out if it passes. A request that the guard turns away changes
/// nothing.
pub fn serve(data: &mut AppState, authorization: Option<&[u8]>, request: Request) -> (reply: Reply)
    ensures
        outcome(*old(data), presented(authorization), request, reply, *final(data)),
{
    if let Request::Health = request {
        return health(data);
    }
    let guard = Auth.new_transform(());
    if !guard.call(data, authorization) {
        return Reply::Unauthorized;
    }
    match request {
        Request::Health => health(data),
        Request::Auth => auth(),
        Request::AddItem(upload) => add_item(data, upload),
        Request::GetItems(queue) => get_items(data, &queue),
        Request::FetchItems(queue) => fetch_items(data, &queue),
    }
}

} // verus!
