//! The ingress surface: what the HTTP and WebSocket endpoints decide.

use crate::context::ConnectionContext;
use crate::error::{Failure, FailureView};
use crate::gateway::config::{Authorizer, Config};
use crate::gateway::messages::{
    BroadcastServerMessage, BroadcastView, ServerDisconnect, ServerMessage,
};
use crate::gateway::routes::{AuthorizerRequest, AuthorizerRequestView, AuthorizerResponse};
use crate::gateway::ws::{Phase, WsConn, WsConnContext};
use crate::http::{clone_headers, headers_view, HttpOutcome, HttpPost};
use crate::ident::uuid_shaped;
use crate::text::{is_rooted, rooted};
use vstd::prelude::*;
use vstd::string::*;
use vstd::utf8::{decode_utf8, valid_utf8};

verus! {

/// The status for a request that was carried out.
pub const STATUS_DONE: u16 = 200;

/// The status for a body that is larger than the ceiling.
pub const STATUS_BAD_REQUEST: u16 = 400;

/// The status for a client that the authorizer did not let in.
pub const STATUS_UNAUTHORIZED: u16 = 401;

/// The status for anything else that failed.
pub const STATUS_INTERNAL: u16 = 500;

/// The optional, repeatable `endpoints` filter of a broadcast request.
#[derive(Debug, Clone, PartialEq)]
pub struct BroadcastQueryParams {
    pub endpoints: Option<Vec<String>>,
}

/// The answer of the health endpoint.
#[derive(Debug, Clone, PartialEq)]
pub struct Health {
    pub status: String,
}

/// The health endpoint reports `up` whenever it is asked.
pub fn health() -> (h: Health)
    ensures
        h.status@ == "up"@,
{
    Health { status: String::from_str("up") }
}

/// The HTTP status that a failure is answered with.
pub open spec fn status_for(f: FailureView) -> u16 {
    match f {
        FailureView::Overflow(_) => STATUS_BAD_REQUEST,
        FailureView::AuthorizerRoute(_) => STATUS_UNAUTHORIZED,
        _ => STATUS_INTERNAL,
    }
}

/// The HTTP status that a failure is answered with.
pub fn status_of(f: &Failure) -> (code: u16)
    ensures
        code == status_for(f@),
{
    match f {
        Failure::Overflow(_) => STATUS_BAD_REQUEST,
        Failure::AuthorizerRoute(_) => STATUS_UNAUTHORIZED,
        _ => STATUS_INTERNAL,
    }
}

/// `/ws{endpoint}`, the path under which a virtual endpoint is served.
pub open spec fn ws_path(endpoint: Seq<char>) -> Seq<char> {
    "/ws"@ + endpoint
}

/// The path under which `endpoint` is served; none for an endpoint that does
/// not begin with a forward slash.
pub fn ws_resource_path(endpoint: &str) -> (r: Option<String>)
    ensures
        crate::bus::redis::opt_view(r) == if rooted(endpoint@) {
            Some(ws_path(endpoint@))
        } else {
            None
        },
{
    if is_rooted(endpoint) {
        let mut path = String::from_str("/ws");
        path.append(endpoint);
        Some(path)
    } else {
        None
    }
}

/// Takes one more chunk of a request body, unless the body would then be
/// larger than `max` bytes. A body of exactly `max` bytes is taken.
pub fn accept_chunk(body: &mut Vec<u8>, chunk: &[u8], max: usize) -> (r: Result<(), Failure>)
    ensures
        match r {
            Ok(_) => old(body)@.len() + chunk@.len() <= max && final(body)@ == old(body)@
                + chunk@,
            Err(e) => old(body)@.len() + chunk@.len() > max && final(body)@ == old(body)@ && e@
                == FailureView::Overflow("overflow"@),
        },
{
    if chunk.len() > max || body.len() > max - chunk.len() {
        return Err(Failure::Overflow(String::from_str("overflow")));
    }
    let mut i: usize = 0;
    while i < chunk.len()
        invariant
            i <= chunk@.len(),
            old(body)@.len() + chunk@.len() <= max,
            body@ == old(body)@ + chunk@.take(i as int),
        decreases chunk.len() - i,
    {
        body.push(chunk[i]);
        assert(chunk@.take(i + 1) =~= chunk@.take(i as int).push(chunk@[i as int]));
        assert(body@ =~= old(body)@ + chunk@.take(i + 1));
        i += 1;
    }
    assert(chunk@.take(chunk@.len() as int) =~= chunk@);
    Ok(())
}

/// The bytes of all `chunks`, one after the other.
pub open spec fn joined(chunks: Seq<Seq<u8>>) -> Seq<u8>
    decreases chunks.len(),
{
    if chunks.len() == 0 {
        Seq::empty()
    } else {
        joined(chunks.drop_last()) + chunks.last()
    }
}

/// The body held after `chunks` arrived one by one under the ceiling `max`,
/// or `None` once a chunk was refused.
pub open spec fn received(chunks: Seq<Seq<u8>>, max: int) -> Option<Seq<u8>>
    decreases chunks.len(),
{
    if chunks.len() == 0 {
        Some(Seq::empty())
    } else {
        match received(chunks.drop_last(), max) {
            Some(held) => if held.len() + chunks.last().len() <= max {
                Some(held + chunks.last())
            } else {
                None
            },
            None => None,
        }
    }
}

/// The payload ceiling: a body that arrives in chunks is taken whole exactly
/// when its total length is at most `max`, however it is cut into chunks.
pub proof fn ceiling_is_on_the_whole_body(chunks: Seq<Seq<u8>>, max: int)
    requires
        max >= 0,
    ensures
        received(chunks, max) == if joined(chunks).len() <= max {
            Some(joined(chunks))
        } else {
            None
        },
    decreases chunks.len(),
{
    if chunks.len() > 0 {
        ceiling_is_on_the_whole_body(chunks.drop_last(), max);
    }
}

/// Calls `String::from_utf8` of std.
///
/// Trusted: it returns the decoded text exactly when the bytes are valid
/// UTF-8, and nothing otherwise.
#[verifier::external_body]
fn utf8_text(bytes: Vec<u8>) -> (r: Option<String>)
    ensures
        match r {
            Some(text) => valid_utf8(bytes@) && text@ == decode_utf8(bytes@),
            None => !valid_utf8(bytes@),
        },
{
    match String::from_utf8(bytes) {
        Ok(text) => Some(text),
        Err(_) => None,
    }
}

/// The text of a request body; none where the bytes are not UTF-8.
pub fn body_text(body: Vec<u8>) -> (r: Option<String>)
    ensures
        match r {
            Some(text) => valid_utf8(body@) && text@ == decode_utf8(body@),
            None => !valid_utf8(body@),
        },
{
    utf8_text(body)
}

/// The broadcasts that a request with the filter `endpoints` stands for.
pub open spec fn broadcasts_for(
    endpoints: Option<Seq<Seq<char>>>,
    time: Seq<char>,
    message: Seq<char>,
) -> Seq<BroadcastView> {
    match endpoints {
        Some(list) => list.map_values(
            |e: Seq<char>| BroadcastView { endpoint: Some(e), time, message },
        ),
        None => seq![BroadcastView { endpoint: None, time, message }],
    }
}

/// The endpoint filter of `params`, as mathematical values.
pub open spec fn filter_view(params: BroadcastQueryParams) -> Option<Seq<Seq<char>>> {
    match params.endpoints {
        Some(list) => Some(list@.map_values(|e: String| e@)),
        None => None,
    }
}

/// The broadcasts in `v`, as mathematical values.
pub open spec fn broadcasts_view(v: Seq<BroadcastServerMessage>) -> Seq<BroadcastView> {
    v.map_values(|b: BroadcastServerMessage| b@)
}

/// The messages for the server that a broadcast with this text stands for:
/// one for everybody where no endpoint is listed, else one per listed
/// endpoint, in the order of the list.
pub fn fan_out(params: &BroadcastQueryParams, time: &String, message: &String) -> (out: Vec<
    BroadcastServerMessage,
>)
    ensures
        broadcasts_view(out@) == broadcasts_for(filter_view(*params), time@, message@),
{
    let mut out: Vec<BroadcastServerMessage> = Vec::new();
    match &params.endpoints {
        Some(list) => {
            let ghost wanted = list@.map_values(|e: String| e@);
            let mut i: usize = 0;
            while i < list.len()
                invariant
                    i <= list.len(),
                    wanted == list@.map_values(|e: String| e@),
                    broadcasts_view(out@) == broadcasts_for(
                        Some(wanted.take(i as int)),
                        time@,
                        message@,
                    ),
                decreases list.len() - i,
            {
                let b = BroadcastServerMessage {
                    endpoint: Some(list[i].clone()),
                    time: time.clone(),
                    message: message.clone(),
                };
                let ghost before = out@;
                out.push(b);
                assert(broadcasts_view(out@) =~= broadcasts_view(before).push(b@));
                assert(wanted.take(i + 1) =~= wanted.take(i as int).push(list@[i as int]@));
                assert(broadcasts_for(Some(wanted.take(i + 1)), time@, message@)
                    =~= broadcasts_for(Some(wanted.take(i as int)), time@, message@).push(b@));
                i += 1;
            }
            assert(wanted.take(list.len() as int) =~= wanted);
        },
        None => {
            let b = BroadcastServerMessage {
                endpoint: None,
                time: time.clone(),
                message: message.clone(),
            };
            out.push(b);
            assert(broadcasts_view(out@) =~= seq![b@]);
        },
    }
    out
}

/// The optional broadcasts in `r`, as mathematical values.
pub open spec fn optional_broadcasts(r: Option<Vec<BroadcastServerMessage>>) -> Option<
    Seq<BroadcastView>,
> {
    match r {
        Some(v) => Some(broadcasts_view(v@)),
        None => None,
    }
}

/// `POST /connections/_broadcast`: turns the body of a broadcast request
/// into the messages for the server. None where the body is not UTF-8.
pub fn handle_broadcast_message(params: &BroadcastQueryParams, time: &String, body: Vec<u8>) -> (r:
    Option<Vec<BroadcastServerMessage>>)
    ensures
        optional_broadcasts(r) == if valid_utf8(body@) {
            Some(broadcasts_for(filter_view(*params), time@, decode_utf8(body@)))
        } else {
            None
        },
{
    match body_text(body) {
        Some(message) => Some(fan_out(params, time, &message)),
        None => None,
    }
}

/// `POST /connections/{id}/_send`: turns the body of a send request into the
/// message for the server. None where the body is not UTF-8.
pub fn handle_server_message(connection: String, time: String, body: Vec<u8>) -> (r: Option<
    ServerMessage,
>)
    ensures
        match r {
            Some(m) => valid_utf8(body@) && m.connection@ == connection@ && m.time@ == time@
                && m.message@ == decode_utf8(body@),
            None => !valid_utf8(body@),
        },
{
    match body_text(body) {
        Some(message) => Some(ServerMessage { connection, time, message }),
        None => None,
    }
}

/// `POST /connections/{id}/_disconnect`: turns the body of a disconnect
/// request, which is the reason, into the message for the server. None where
/// the body is not UTF-8.
pub fn handle_disconnect(connection: String, time: String, body: Vec<u8>) -> (r: Option<
    ServerDisconnect,
>)
    ensures
        match r {
            Some(m) => valid_utf8(body@) && m.connection@ == connection@ && m.time@ == time@
                && m.reason@ == decode_utf8(body@),
            None => !valid_utf8(body@),
        },
{
    match body_text(body) {
        Some(reason) => Some(ServerDisconnect { connection, time, reason }),
        None => None,
    }
}

/// The call that asks the authorizer whether the client of `connection` may
/// connect on `endpoint`. The body repeats the configured headers as pairs.
pub fn invoke_authorizer_route(
    route: &Authorizer,
    instance: &String,
    group: &String,
    endpoint: &String,
    connection: &String,
    time: &String,
) -> (post: HttpPost<AuthorizerRequest>)
    ensures
        post.endpoint@ == route.endpoint@,
        headers_view(post.headers@) == headers_view(route.headers@),
        post.body@ == (AuthorizerRequestView {
            instance_id: instance@,
            group_id: group@,
            endpoint: endpoint@,
            connection_id: connection@,
            time: time@,
            headers: headers_view(route.headers@),
        }),
{
    HttpPost {
        endpoint: route.endpoint.clone(),
        headers: clone_headers(&route.headers),
        body: AuthorizerRequest {
            instance_id: instance.clone(),
            group_id: group.clone(),
            endpoint: endpoint.clone(),
            connection_id: connection.clone(),
            time: time.clone(),
            headers: clone_headers(&route.headers),
        },
    }
}

/// What the authorizer sent back: how the call ended, and the parsed body or
/// the reason why it could not be read. The body counts only beside a 200.
#[derive(Debug, PartialEq)]
pub struct AuthorizerAnswer {
    pub outcome: HttpOutcome,
    pub body: Result<AuthorizerResponse, String>,
}

/// The context that an optional mapping stands for.
pub open spec fn context_of(m: Option<crate::context::ConnectionContextMap>) -> Option<
    Map<String, serde_json::Value>,
> {
    match m {
        Some(map) => Some(map@),
        None => None,
    }
}

/// The context that the authorizer's answer lets a client in with; none where
/// the answer does not let it in.
pub open spec fn admitted(answer: Option<AuthorizerAnswer>) -> Option<
    Option<Map<String, serde_json::Value>>,
> {
    match answer {
        Some(a) => if a.outcome.accepted() {
            match a.body {
                Ok(body) => Some(context_of(body.context)),
                Err(_) => None,
            }
        } else {
            None
        },
        None => None,
    }
}

/// Why the authorizer's answer does not let a client in: the transport's
/// text, the status, or why the body could not be read.
pub open spec fn objection(answer: Option<AuthorizerAnswer>) -> Seq<char> {
    match answer {
        None => "authorizer was not asked"@,
        Some(a) => match a.outcome.complaint("authorizer route error code "@) {
            Some(text) => text,
            None => match a.body {
                Ok(_) => Seq::empty(),
                Err(why) => why@,
            },
        },
    }
}

/// Decides whether a client is let in, and with which context. Without an
/// authorizer everybody is, with an empty context. With one, only a 200 with
/// a readable body lets the client in, and the body's context is attached.
pub fn authorize(route: &Option<Authorizer>, answer: Option<AuthorizerAnswer>) -> (r: Result<
    WsConnContext,
    Failure,
>)
    ensures
        match r {
            Ok(context) => match *route {
                None => context@ is None,
                Some(_) => admitted(answer) == Some(context@),
            },
            Err(e) => {
                &&& route is Some
                &&& admitted(answer) is None
                &&& e@ == FailureView::AuthorizerRoute(objection(answer))
                &&& status_for(e@) == STATUS_UNAUTHORIZED
            },
        },
{
    match route {
        None => Ok(ConnectionContext::empty()),
        Some(_) => match answer {
            None => Err(Failure::AuthorizerRoute(String::from_str("authorizer was not asked"))),
            Some(a) => match a.outcome.complain("authorizer route error code ") {
                Some(text) => Err(Failure::AuthorizerRoute(text)),
                None => match a.body {
                    Ok(body) => Ok(ConnectionContext { authorizer: body.context }),
                    Err(why) => Err(Failure::AuthorizerRoute(why)),
                },
            },
        },
    }
}

/// The first half of an upgrade: the fresh connection id, and the call to
/// the authorizer where one is configured.
#[derive(Debug, Clone, PartialEq)]
pub struct Upgrade {
    pub connection: String,
    pub authorizer: Option<HttpPost<AuthorizerRequest>>,
}

/// Starts the upgrade of a client that asks for `endpoint`, with the
/// connection id `connection`.
pub fn plan_upgrade(
    config: &Config,
    instance: &String,
    endpoint: &String,
    connection: String,
    time: &String,
) -> (u: Upgrade)
    ensures
        u.connection@ == connection@,
        u.authorizer is Some <==> config.routes.authorizer is Some,
        u.authorizer is Some ==> {
            let post = u.authorizer.unwrap();
            let route = config.routes.authorizer.unwrap();
            &&& post.endpoint@ == route.endpoint@
            &&& headers_view(post.headers@) == headers_view(route.headers@)
            &&& post.body@ == (AuthorizerRequestView {
                instance_id: instance@,
                group_id: config.group_id@,
                endpoint: endpoint@,
                connection_id: connection@,
                time: time@,
                headers: headers_view(route.headers@),
            })
        },
{
    let authorizer = match &config.routes.authorizer {
        Some(route) => Some(
            invoke_authorizer_route(route, instance, &config.group_id, endpoint, &connection, time),
        ),
        None => None,
    };
    Upgrade { connection, authorizer }
}

/// The second half of an upgrade: the session for a client that was let in,
/// with the heartbeat interval and the timeout of the configuration; or the
/// failure that is answered with 401.
pub fn handler(
    config: &Config,
    connection: String,
    endpoint: String,
    answer: Option<AuthorizerAnswer>,
    now_ms: u64,
) -> (r: Result<WsConn, Failure>)
    ensures
        match r {
            Ok(session) => {
                &&& session@.phase == Phase::Created
                &&& !session@.disconnect_sent
                &&& session@.heartbeat == now_ms
                &&& session@.connection == connection@
                &&& session@.group == config.group_id@
                &&& session@.endpoint == endpoint@
                &&& session@.heartbeat_int == config.server.heartbeat_interval_sec * 1000
                &&& session@.timeout == config.server.connection_timeout_sec * 1000
                &&& match config.routes.authorizer {
                    None => session@.context is None,
                    Some(_) => admitted(answer) == Some(session@.context),
                }
            },
            Err(e) => {
                &&& config.routes.authorizer is Some
                &&& admitted(answer) is None
                &&& e@ == FailureView::AuthorizerRoute(objection(answer))
            },
        },
{
    match authorize(&config.routes.authorizer, answer) {
        Ok(context) => Ok(
            WsConn::new(
                connection,
                config.group_id.clone(),
                endpoint,
                context,
                config.server.heartbeat_interval_ms(),
                config.server.connection_timeout_ms(),
                now_ms,
            ),
        ),
        Err(e) => Err(e),
    }
}

/// Starts the upgrade of a client that asks for `endpoint`, under a fresh
/// connection id.
pub fn begin_upgrade(config: &Config, instance: &String, endpoint: &String, time: &String) -> (u:
    Upgrade)
    ensures
        uuid_shaped(u.connection@),
        u.authorizer is Some <==> config.routes.authorizer is Some,
        u.authorizer is Some ==> {
            let post = u.authorizer.unwrap();
            let route = config.routes.authorizer.unwrap();
            &&& post.endpoint@ == route.endpoint@
            &&& headers_view(post.headers@) == headers_view(route.headers@)
            &&& post.body@ == (AuthorizerRequestView {
                instance_id: instance@,
                group_id: config.group_id@,
                endpoint: endpoint@,
                connection_id: u.connection@,
                time: time@,
                headers: headers_view(route.headers@),
            })
        },
{
    plan_upgrade(config, instance, endpoint, WsConn::claim_id(), time)
}

} // verus!
