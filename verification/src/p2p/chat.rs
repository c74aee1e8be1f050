//! The `/rau/chat/1` protocol: rooms, message bounds, acknowledgements and the
//! delivery status of a fan-out.
use vstd::prelude::*;
use vstd::string::StringExecFns;

use crate::broadcast::profile::opt_view;
use crate::clock::{parses_as_rfc3339, rfc3339_accepted};
use crate::text::{
    char_count, chars_of, decimal, decimal_string, lemma_trim_idempotent, lit, str_eq, string_of,
    trim, trim_spec, trimmed,
};

verus! {

/// Version of the chat protocol.
pub const PROTOCOL_VERSION: u8 = 1;

/// Largest chat frame read from a peer.
pub const MAX_CHAT_FRAME_BYTES: usize = 32768;

/// Longest message body, in characters.
pub const MAX_CHAT_BODY_CHARS: usize = 4000;

/// A chat message as it travels between peers.
#[derive(Debug, Clone)]
pub struct ChatWireMessage {
    pub version: u8,
    pub id: String,
    pub room: String,
    pub sender_endpoint_id: String,
    pub sender_display_name: String,
    pub body: String,
    pub sent_at: String,
    pub endpoint_ticket: Option<String>,
}

/// A receiver's acknowledgement of one message.
#[derive(Debug, Clone)]
pub struct ChatAck {
    pub version: u8,
    pub message_id: String,
    pub receiver_endpoint_id: String,
    pub accepted: bool,
    pub error: Option<String>,
    pub received_at: String,
}

/// Whether `uuid::Uuid::parse_str` accepts the text.
pub uninterp spec fn uuid_accepted(text: Seq<char>) -> bool;

/// Calls `uuid::Uuid::parse_str` and reports whether it succeeded.
#[verifier::external_body]
fn parses_as_uuid(text: &str) -> (r: bool)
    ensures
        r == uuid_accepted(text@),
{
    uuid::Uuid::parse_str(text).is_ok()
}

/// The two chat rooms.
pub open spec fn is_room(room: Seq<char>) -> bool {
    room == "private"@ || room == "general"@
}

/// A message body a peer accepts: not blank and at most 4000 characters.
pub open spec fn body_acceptable(body: Seq<char>) -> bool {
    trim_spec(body).len() > 0 && body.len() <= MAX_CHAT_BODY_CHARS
}

/// A display name of 2 to 64 characters once trimmed.
pub open spec fn display_name_acceptable(name: Seq<char>) -> bool {
    2 <= trim_spec(name).len() <= 64
}

/// A well-formed wire message: current version, UUID id, a known room, a
/// reasonable sender name, a bounded body and an RFC 3339 send time.
pub open spec fn wire_message_valid(
    version: u8,
    id: Seq<char>,
    room: Seq<char>,
    display_name: Seq<char>,
    body: Seq<char>,
    sent_at: Seq<char>,
) -> bool {
    &&& version == PROTOCOL_VERSION
    &&& uuid_accepted(id)
    &&& is_room(room)
    &&& display_name_acceptable(display_name)
    &&& body_acceptable(body)
    &&& rfc3339_accepted(sent_at)
}

/// Whether a received message is well formed.
pub fn valid_wire_message(message: &ChatWireMessage) -> (r: bool)
    ensures
        r == wire_message_valid(
            message.version,
            message.id@,
            message.room@,
            message.sender_display_name@,
            message.body@,
            message.sent_at@,
        ),
{
    message.version == PROTOCOL_VERSION && parses_as_uuid(message.id.as_str()) && (str_eq(
        message.room.as_str(),
        "private",
    ) || str_eq(message.room.as_str(), "general")) && {
        let n = char_count(trim(message.sender_display_name.as_str()));
        2 <= n && n <= 64
    } && !trim(message.body.as_str()).is_empty() && char_count(message.body.as_str())
        <= MAX_CHAT_BODY_CHARS && parses_as_rfc3339(message.sent_at.as_str())
}

/// A receiver stores a message only when it is well formed and its sender is the
/// authenticated peer.
pub fn accepts_incoming(message: &ChatWireMessage, remote_endpoint_id: &str) -> (r: bool)
    ensures
        r == (wire_message_valid(
            message.version,
            message.id@,
            message.room@,
            message.sender_display_name@,
            message.body@,
            message.sent_at@,
        ) && message.sender_endpoint_id@ == remote_endpoint_id@),
{
    valid_wire_message(message) && str_eq(message.sender_endpoint_id.as_str(), remote_endpoint_id)
}

/// ASCII upper-case letters to lower case, other characters unchanged, as
/// `str::to_ascii_lowercase` maps them.
pub open spec fn ascii_lowercase(s: Seq<char>) -> Seq<char> {
    s.map_values(|c: char| if 'A' <= c && c <= 'Z' { ((c as u8) + 32) as char } else { c })
}

fn to_ascii_lowercase(s: &str) -> (r: String)
    ensures
        r@ == ascii_lowercase(s@),
{
    let v = chars_of(s);
    let mut out: Vec<char> = Vec::new();
    let mut i: usize = 0;
    while i < v.len()
        invariant
            i <= v.len(),
            v@ == s@,
            out@ == ascii_lowercase(s@).take(i as int),
        decreases v.len() - i,
    {
        let c = v[i];
        let lower = if 'A' <= c && c <= 'Z' {
            ((c as u8) + 32) as char
        } else {
            c
        };
        out.push(lower);
        i = i + 1;
        assert(out@ =~= ascii_lowercase(s@).take(i as int));
    }
    assert(out@ =~= ascii_lowercase(s@));
    string_of(&out)
}

/// The room a user picked, trimmed and lower-cased; only the two rooms exist.
pub fn validate_room(room: &str) -> (r: Result<String, String>)
    ensures
        r matches Ok(name) ==> name@ == ascii_lowercase(trim_spec(room@)) && is_room(name@),
        r is Err <==> !is_room(ascii_lowercase(trim_spec(room@))),
        r matches Err(e) ==> e@ == "La sala de chat no es valida."@,
{
    let name = to_ascii_lowercase(trim(room));
    if str_eq(name.as_str(), "private") || str_eq(name.as_str(), "general") {
        Ok(name)
    } else {
        Err(lit("La sala de chat no es valida."))
    }
}

/// The body a user wrote, trimmed; it must hold 1 to 4000 characters.
pub fn validate_body(body: &str) -> (r: Result<String, String>)
    ensures
        r matches Ok(b) ==> b@ == trim_spec(body@),
        r is Err <==> (trim_spec(body@).len() == 0 || trim_spec(body@).len() > MAX_CHAT_BODY_CHARS),
        r matches Err(e) ==> e@ == "El mensaje debe tener entre 1 y 4000 caracteres."@,
{
    let b = trimmed(body);
    if b.as_str().is_empty() || char_count(b.as_str()) > MAX_CHAT_BODY_CHARS {
        return Err(lit("El mensaje debe tener entre 1 y 4000 caracteres."));
    }
    Ok(b)
}

/// What a sender accepts, a receiver accepts: a body that `validate_body`
/// returns passes the receiver's body check.
pub proof fn lemma_sent_body_is_received(body: Seq<char>)
    ensures
        (trim_spec(body).len() > 0 && trim_spec(body).len() <= MAX_CHAT_BODY_CHARS)
            ==> body_acceptable(trim_spec(body)),
{
    lemma_trim_idempotent(body);
}

/// Why an acknowledgement is refused, if it is: it must carry the current
/// version, the message's id and the authenticated peer's identity, and then
/// accept the message.
pub open spec fn ack_refusal(
    version: u8,
    message_id: Seq<char>,
    receiver: Seq<char>,
    accepted: bool,
    error: Option<Seq<char>>,
    expected_id: Seq<char>,
    authenticated: Seq<char>,
) -> Option<Seq<char>> {
    if version != PROTOCOL_VERSION || message_id != expected_id || receiver != authenticated {
        Some("La confirmacion no coincide con el peer autenticado."@)
    } else if !accepted {
        Some(
            match error {
                Some(e) => e,
                None => "El peer rechazo el mensaje."@,
            },
        )
    } else {
        None
    }
}

/// Checks a peer's acknowledgement of the message `expected_id`.
pub fn check_chat_ack(ack: &ChatAck, expected_id: &str, authenticated: &str) -> (r: Result<
    (),
    String,
>)
    ensures
        r is Ok <==> ack_refusal(
            ack.version,
            ack.message_id@,
            ack.receiver_endpoint_id@,
            ack.accepted,
            opt_view(ack.error),
            expected_id@,
            authenticated@,
        ) is None,
        r matches Err(e) ==> ack_refusal(
            ack.version,
            ack.message_id@,
            ack.receiver_endpoint_id@,
            ack.accepted,
            opt_view(ack.error),
            expected_id@,
            authenticated@,
        ) == Some(e@),
        ack.version == PROTOCOL_VERSION && ack.message_id@ == expected_id@ && ack.receiver_endpoint_id@
            == authenticated@ ==> (r is Ok <==> ack.accepted),
        (ack.version != PROTOCOL_VERSION || ack.message_id@ != expected_id@ || ack.receiver_endpoint_id@
            != authenticated@) ==> r is Err,
{
    if ack.version != PROTOCOL_VERSION || !str_eq(ack.message_id.as_str(), expected_id) || !str_eq(
        ack.receiver_endpoint_id.as_str(),
        authenticated,
    ) {
        return Err(lit("La confirmacion no coincide con el peer autenticado."));
    }
    if !ack.accepted {
        return Err(
            match &ack.error {
                Some(e) => e.clone(),
                None => lit("El peer rechazo el mensaje."),
            },
        );
    }
    Ok(())
}

/// An acknowledgement is taken exactly when it carries the current version, the
/// message's id and the authenticated receiver, and says it accepted the
/// message; its error field does not matter then. A refused message reports
/// the peer's error, or a fixed text when the peer gave none.
pub proof fn lemma_ack_accepted_iff_matching_and_accepted(
    version: u8,
    message_id: Seq<char>,
    receiver: Seq<char>,
    accepted: bool,
    error: Option<Seq<char>>,
    expected_id: Seq<char>,
    authenticated: Seq<char>,
)
    ensures
        (ack_refusal(version, message_id, receiver, accepted, error, expected_id, authenticated)
            is None) <==> (version == PROTOCOL_VERSION && message_id == expected_id && receiver
            == authenticated && accepted),
        version == PROTOCOL_VERSION && message_id == expected_id && receiver == authenticated
            && !accepted && error is Some ==> ack_refusal(
            version,
            message_id,
            receiver,
            accepted,
            error,
            expected_id,
            authenticated,
        ) == error,
{
}

/// The delivery status of a message sent to `total` peers.
pub open spec fn delivery_status_spec(delivered: usize, total: usize) -> Seq<char> {
    if delivered == total {
        "delivered"@
    } else if delivered > 0 {
        "partial"@
    } else {
        "failed"@
    }
}

/// A message is `delivered` exactly when every recipient acknowledged it.
pub proof fn lemma_delivery_status_meanings(delivered: usize, total: usize)
    ensures
        (delivery_status_spec(delivered, total) == "delivered"@) <==> delivered == total,
        0 < total && delivered <= total ==> ((delivery_status_spec(delivered, total) == "failed"@)
            <==> delivered == 0),
{
    reveal_strlit("failed");
    reveal_strlit("delivered");
    reveal_strlit("partial");
    assert("delivered"@[0] != "failed"@[0]);
    assert("partial"@[0] != "failed"@[0]);
    assert("partial"@[0] != "delivered"@[0]);
    if delivered == total {
        assert(delivery_status_spec(delivered, total) == "delivered"@);
    } else {
        assert(delivery_status_spec(delivered, total) != "delivered"@);
    }
    if 0 < total && delivered <= total {
        lemma_failed_exactly_when_nobody_received(delivered, total);
    }
}

/// `delivered` when every peer acknowledged, `partial` when some did, `failed`
/// otherwise.
pub fn delivery_status(delivered: usize, total: usize) -> (r: String)
    ensures
        r@ == delivery_status_spec(delivered, total),
        (r@ == "delivered"@) <==> delivered == total,
        0 < total && delivered <= total ==> ((r@ == "failed"@) <==> delivered == 0),
{
    proof {
        lemma_delivery_status_meanings(delivered, total);
    }
    if delivered == total {
        lit("delivered")
    } else if delivered > 0 {
        lit("partial")
    } else {
        lit("failed")
    }
}

/// A send to at least one peer is reported `failed` exactly when no peer
/// acknowledged it, which is when the send returns an error.
pub proof fn lemma_failed_exactly_when_nobody_received(delivered: usize, total: usize)
    requires
        total > 0,
        delivered <= total,
    ensures
        (delivery_status_spec(delivered, total) == "failed"@) <==> delivered == 0,
{
    reveal_strlit("failed");
    reveal_strlit("delivered");
    reveal_strlit("partial");
    assert("delivered"@[0] != "failed"@[0]);
    assert("partial"@[0] != "failed"@[0]);
}

/// The peer of a private conversation: it must be given and not blank.
pub fn private_peer(peer: Option<String>, missing: &str) -> (r: Result<String, String>)
    ensures
        r matches Ok(p) ==> Some(p@) == opt_view(peer) && trim_spec(p@).len() > 0,
        r is Err <==> (peer is None || trim_spec(opt_view(peer).unwrap()).len() == 0),
        r matches Err(e) ==> e@ == missing@,
{
    match peer {
        Some(p) => {
            if trim(p.as_str()).is_empty() {
                Err(lit(missing))
            } else {
                Ok(p)
            }
        },
        None => Err(lit(missing)),
    }
}

/// The recipients of a message: the private peer, which must be given and not
/// blank, or the peers of the general room; there must be at least one.
pub fn chat_targets(private: bool, peer: Option<String>, general: Vec<String>) -> (r: Result<
    Vec<String>,
    String,
>)
    ensures
        private && (peer is None || trim_spec(opt_view(peer).unwrap()).len() == 0) ==> (r matches Err(
            e,
        ) && e@ == "Selecciona un peer para enviar el mensaje privado."@),
        private && peer is Some && trim_spec(opt_view(peer).unwrap()).len() > 0 ==> (r matches Ok(t)
            && t@.len() == 1 && t@[0]@ == opt_view(peer).unwrap()),
        !private && general@.len() == 0 ==> (r matches Err(e) && e@
            == "No hay peers con ticket de retorno para recibir el mensaje."@),
        !private && general@.len() > 0 ==> r == Ok::<Vec<String>, String>(general),
{
    if private {
        let p = private_peer(peer, "Selecciona un peer para enviar el mensaje privado.")?;
        let mut targets: Vec<String> = Vec::new();
        targets.push(p);
        Ok(targets)
    } else {
        if general.len() == 0 {
            return Err(lit("No hay peers con ticket de retorno para recibir el mensaje."));
        }
        Ok(general)
    }
}

/// How many peers acknowledged a message so far, and the last refusal.
#[derive(Debug, Clone)]
pub struct DeliveryTally {
    pub delivered: usize,
    pub last_error: Option<String>,
}

impl DeliveryTally {
    /// No peer tried yet.
    pub fn new() -> (r: Self)
        ensures
            r.delivered == 0,
            r.last_error is None,
    {
        DeliveryTally { delivered: 0, last_error: None }
    }

    /// Counts one peer's answer: an acknowledgement, or a refusal that becomes
    /// the last error.
    pub fn record(&mut self, result: Result<(), String>)
        requires
            old(self).delivered < usize::MAX,
        ensures
            result is Ok ==> final(self).delivered == old(self).delivered + 1 && opt_view(
                final(self).last_error,
            ) == opt_view(old(self).last_error),
            result matches Err(e) ==> final(self).delivered == old(self).delivered && opt_view(
                final(self).last_error,
            ) == Some(e@),
    {
        match result {
            Ok(()) => {
                self.delivered = self.delivered + 1;
            },
            Err(e) => {
                self.last_error = Some(e);
            },
        }
    }

    /// The send's result: the number of peers reached, or the last refusal when
    /// none was reached.
    pub fn finish(self) -> (r: Result<usize, String>)
        ensures
            self.delivered > 0 ==> r == Ok::<usize, String>(self.delivered),
            self.delivered == 0 ==> (r matches Err(e) && e@ == (match opt_view(self.last_error) {
                Some(m) => m,
                None => "Ningun peer recibio el mensaje."@,
            })),
    {
        if self.delivered > 0 {
            return Ok(self.delivered);
        }
        match self.last_error {
            Some(e) => Err(e),
            None => Err(lit("Ningun peer recibio el mensaje.")),
        }
    }
}

/// The number of messages of history shown: 200 by default, within 1 to 500.
pub fn chat_list_limit(limit: Option<usize>) -> (r: usize)
    ensures
        1 <= r <= 500,
        limit is None ==> r == 200,
        limit matches Some(l) ==> r == (if l < 1 {
            1
        } else if l > 500 {
            500
        } else {
            l
        }),
{
    let l = match limit {
        Some(l) => l,
        None => 200,
    };
    if l < 1 {
        1
    } else if l > 500 {
        500
    } else {
        l
    }
}

/// The history query of a room, newest first; a private room is narrowed to one
/// peer (the second parameter).
pub open spec fn chat_history_query_spec(private: bool, limit: usize) -> Seq<char> {
    "SELECT id, room, peer_endpoint_id, sender_endpoint_id, sender_display_name, body, direction, delivery_status, sent_at, received_at FROM p2p_chat_messages WHERE room = ?1"@
        + (if private {
        " AND peer_endpoint_id = ?2"@
    } else {
        Seq::empty()
    }) + " ORDER BY sent_at DESC, created_at DESC LIMIT "@ + decimal(limit as nat)
}

/// The SQL of a history listing.
pub fn chat_history_query(private: bool, limit: usize) -> (r: String)
    ensures
        r@ == chat_history_query_spec(private, limit),
{
    let base = lit(
        "SELECT id, room, peer_endpoint_id, sender_endpoint_id, sender_display_name, body, direction, delivery_status, sent_at, received_at FROM p2p_chat_messages WHERE room = ?1",
    );
    let base = if private {
        base.concat(" AND peer_endpoint_id = ?2")
    } else {
        base
    };
    base.concat(" ORDER BY sent_at DESC, created_at DESC LIMIT ").concat(
        decimal_string(limit as u64).as_str(),
    )
}

/// The peer a sent message is stored under: the private peer, or `*` for the
/// general room.
pub fn storage_peer(private: bool, targets: &Vec<String>) -> (r: String)
    requires
        targets.len() > 0,
    ensures
        private ==> r@ == targets@[0]@,
        !private ==> r@ == "*"@,
{
    if private {
        targets[0].clone()
    } else {
        lit("*")
    }
}

} // verus!
