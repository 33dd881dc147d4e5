use crate::challenge_response::Challenge;
use crate::challenge_response::append_bytes;
use crate::challenge_response::Response;
use crate::challenge_response::ResponseError;
use crate::challenge_response::response_of;
use crate::challenge_response::responses_match;
use vstd::prelude::*;
use vstd::slice::slice_index_get;
use vstd::slice::slice_subrange;
use vstd::slice::slice_to_vec;

verus! {

/// The peer sent bytes that violate the protocol framing: the seven bytes
/// read after authentication were not the bridge signal.
#[derive(Debug)]
pub struct ProtocolError;

/// How many seconds the post-mismatch sink phase lasts at most.
pub const SINK_TIMEOUT_SECS: u64 = 5;

/// The seven ASCII bytes of the bridge signal, `connect`.
pub open spec fn connect_signal() -> Seq<u8> {
    seq![99u8, 111u8, 110u8, 110u8, 101u8, 99u8, 116u8]
}

/// The bridge signal as a byte vector: the seven ASCII bytes of `connect`.
pub fn connect_signal_bytes() -> (v: Vec<u8>)
    ensures
        v@ == connect_signal(),
        v@.len() == 7,
{
    let mut v: Vec<u8> = Vec::new();
    v.push(99);
    v.push(111);
    v.push(110);
    v.push(110);
    v.push(101);
    v.push(99);
    v.push(116);
    proof {
        assert(v@ =~= connect_signal());
    }
    v
}

/// One side of the handshake accepts exactly when the response the peer
/// derived over this side's salt equals the response this side expects of a
/// holder of its own PSK.
pub open spec fn side_accepts(psk_local: Seq<u8>, psk_peer: Seq<u8>, salt_local: Seq<u8>) -> bool {
    responses_match(response_of(psk_peer, salt_local), response_of(psk_local, salt_local))
}

/// A full handshake succeeds exactly when both sides accept.
pub open spec fn handshake_succeeds(
    psk_a: Seq<u8>,
    psk_b: Seq<u8>,
    salt_a: Seq<u8>,
    salt_b: Seq<u8>,
) -> bool {
    side_accepts(psk_a, psk_b, salt_a) && side_accepts(psk_b, psk_a, salt_b)
}

/// The verdict `authenticate` reaches on a peer that derived its answer from
/// its own PSK over this side's salt is exactly `side_accepts`: the spec of
/// the handshake outcome and the exec decision agree.
pub proof fn lemma_authenticate_decides_side(
    psk_local: Seq<u8>,
    psk_peer: Seq<u8>,
    salt_local: Seq<u8>,
)
    ensures
        responses_match(response_of(psk_peer, salt_local), response_of(psk_local, salt_local))
            == side_accepts(psk_local, psk_peer, salt_local),
{
}

/// A full handshake between endpoints holding identical PSKs succeeds, on
/// both sides, whatever the two salts.
pub proof fn lemma_equal_psk_handshake_succeeds(psk: Seq<u8>, salt_a: Seq<u8>, salt_b: Seq<u8>)
    ensures
        handshake_succeeds(psk, psk, salt_a, salt_b),
{
}

/// Swapping the two peers of a handshake, each keeping its own PSK and salt,
/// gives the same outcome.
pub proof fn lemma_handshake_symmetry(
    psk_a: Seq<u8>,
    psk_b: Seq<u8>,
    salt_a: Seq<u8>,
    salt_b: Seq<u8>,
)
    ensures
        handshake_succeeds(psk_a, psk_b, salt_a, salt_b) == handshake_succeeds(
            psk_b,
            psk_a,
            salt_b,
            salt_a,
        ),
{
}

/// A handshake between endpoints holding distinct PSKs fails on both sides,
/// and neither side reaches the authenticated phase, provided the digest
/// tells the PSKs apart over the salts in play (distinct PSKs whose digests
/// collide are excluded).
pub proof fn lemma_distinct_psk_handshake_fails(
    psk_a: Seq<u8>,
    psk_b: Seq<u8>,
    salt_a: Seq<u8>,
    salt_b: Seq<u8>,
)
    requires
        psk_a != psk_b,
        response_of(psk_b, salt_a) != response_of(psk_a, salt_a),
        response_of(psk_a, salt_b) != response_of(psk_b, salt_b),
    ensures
        !side_accepts(psk_a, psk_b, salt_a),
        !side_accepts(psk_b, psk_a, salt_b),
        !handshake_succeeds(psk_a, psk_b, salt_a, salt_b),
{
}

/// The inbound side of the handshake wire: of whatever the peer sends, the
/// first 32 bytes are its salt, the next 32 its response, and everything
/// from byte 64 on belongs to the phases after authentication — it is handed
/// back untouched, no byte read ahead or lost. Fewer than 64 bytes before
/// end-of-stream is a short read and yields nothing.
pub fn split_handshake_inbound(inbound: &[u8]) -> (r: Option<(Vec<u8>, Vec<u8>, Vec<u8>)>)
    ensures
        r is Some <==> inbound@.len() >= 64,
        r is Some ==> {
            &&& r->Some_0.0@ == inbound@.subrange(0, 32)
            &&& r->Some_0.1@ == inbound@.subrange(32, 64)
            &&& r->Some_0.2@ == inbound@.subrange(64, inbound@.len() as int)
        },
{
    if inbound.len() < 64 {
        return None;
    }
    let salt = slice_to_vec(slice_subrange(inbound, 0, 32));
    let response = slice_to_vec(slice_subrange(inbound, 32, 64));
    let rest = slice_to_vec(slice_subrange(inbound, 64, inbound.len()));
    Some((salt, response, rest))
}

/// A tunnel whose peer has not yet proved knowledge of the PSK. The phase
/// holds the PSK the handshake will be run with; the stream itself lives
/// with the caller, which performs the reads and writes.
pub struct Unauthenticated {
    psk: Vec<u8>,
}

/// A tunnel that detected a response mismatch. The failure is not surfaced
/// yet: the caller first drains the stream until end-of-stream or the
/// timeout of `SINK_TIMEOUT_SECS`, and only then calls `surface`. Reaching
/// the error without passing through this phase is impossible.
pub struct SinkPhase {
    seal: (),
}

/// A tunnel whose peer has proved knowledge of the PSK. Only this phase may
/// exchange the bridge signal. A value of this type exists only as the
/// outcome of a successful `authenticate`.
pub struct Authenticated {
    seal: (),
}

/// A tunnel that has exchanged the bridge signal. Only this phase may be
/// spliced against another stream. A value of this type exists only as the
/// outcome of a signal exchange in the authenticated phase.
pub struct Connected {
    seal: (),
}

impl Unauthenticated {
    /// The PSK this tunnel authenticates with.
    pub closed spec fn psk_view(&self) -> Seq<u8> {
        self.psk@
    }

    /// Begin the lifecycle of one tunnel over a fresh stream.
    pub fn new(psk: Vec<u8>) -> (t: Unauthenticated)
        ensures
            t.psk_view() == psk@,
    {
        Unauthenticated { psk }
    }

    /// The response this side owes the peer: the digest of the local PSK
    /// followed by the peer's 32-byte salt.
    pub fn response_for(&self, peer_salt: &[u8]) -> (r: Response)
        requires
            peer_salt@.len() == 32,
        ensures
            r@ == response_of(self.psk_view(), peer_salt@),
            r.wf(),
    {
        let peer_challenge = Challenge::from_slice(self.psk.as_slice(), peer_salt);
        peer_challenge.to_response()
    }

    /// The bytes this side puts on the wire during the handshake: its own
    /// 32-byte salt followed by its 32-byte response to the peer's salt —
    /// exactly 64 bytes per direction, so a completed handshake leaves each
    /// side's inbound stream positioned at byte 64. The two halves are sent
    /// concurrently with the peer's, but their order on the wire is fixed.
    pub fn handshake_transcript(&self, local: &Challenge, peer_salt: &[u8]) -> (t: Vec<u8>)
        requires
            local.wf(),
            local.psk_view() == self.psk_view(),
            peer_salt@.len() == 32,
        ensures
            t@ == local.salt_view() + response_of(self.psk_view(), peer_salt@),
            t@.len() == 64,
    {
        let mut t: Vec<u8> = Vec::new();
        append_bytes(&mut t, local.salt_bytes().as_slice());
        let response = self.response_for(peer_salt);
        append_bytes(&mut t, response.hash_bytes().as_slice());
        proof {
            assert(Seq::<u8>::empty() + local.salt_view() + response@ =~= local.salt_view()
                + response@);
        }
        t
    }

    /// Decide the outcome of the handshake, given the challenge this side
    /// issued and the response the peer returned to it. On a match the
    /// tunnel advances to the authenticated phase; on a mismatch it enters
    /// the sink phase, from which only the mismatch error can emerge.
    pub fn authenticate(self, local: &Challenge, peer_response: &Response) -> (r: Result<
        Authenticated,
        SinkPhase,
    >)
        requires
            local.psk_view() == self.psk_view(),
        ensures
            r is Ok <==> responses_match(peer_response@, response_of(
                self.psk_view(),
                local.salt_view(),
            )),
    {
        let expected = local.to_response();
        match peer_response.check(&expected) {
            Ok(()) => Ok(Authenticated { seal: () }),
            Err(_) => Err(SinkPhase { seal: () }),
        }
    }
}

impl SinkPhase {
    /// Surface the authentication failure once the sink phase has run its
    /// course. A peer that closed first and a timeout that expired first
    /// lead to the same error.
    pub fn surface(self) -> ResponseError {
        ResponseError
    }
}

impl Authenticated {
    /// Client side: decide on the seven bytes read after authentication.
    /// The tunnel advances exactly when they are the bridge signal; any
    /// other bytes are a protocol violation.
    pub fn wait_for_connection(self, magic: &[u8]) -> (r: Result<Connected, ProtocolError>)
        ensures
            r is Ok <==> magic@ == connect_signal(),
    {
        if magic.len() != 7 {
            return Err(ProtocolError);
        }
        let expected = connect_signal_bytes();
        let mut i: usize = 0;
        while i < 7
            invariant
                i <= 7,
                magic@.len() == 7,
                expected@ == connect_signal(),
                forall|j: int| 0 <= j < i ==> magic@[j] == expected@[j],
            decreases 7 - i,
        {
            if *slice_index_get(magic, i) != expected[i] {
                return Err(ProtocolError);
            }
            i = i + 1;
        }
        proof {
            assert(magic@ =~= connect_signal());
        }
        Ok(Connected { seal: () })
    }

    /// Server side: announce that a user connection is available. Yields the
    /// seven signal bytes the caller must write to the peer, and the
    /// connected phase.
    pub fn connection_available(self) -> (r: (Vec<u8>, Connected))
        ensures
            r.0@ == connect_signal(),
            r.0@.len() == 7,
    {
        (connect_signal_bytes(), Connected { seal: () })
    }
}

/// The signal that `connection_available` emits is exactly the signal that
/// `wait_for_connection` accepts, and it is seven bytes long: after a
/// successful handshake exactly these seven bytes flow from the server to
/// the client before any payload.
pub proof fn lemma_signal_round_trip(magic: Seq<u8>)
    ensures
        connect_signal().len() == 7,
        (magic == connect_signal()) <==> (magic.len() == 7 && magic[0] == 99 && magic[1] == 111
            && magic[2] == 110 && magic[3] == 110 && magic[4] == 101 && magic[5] == 99 && magic[6]
            == 116),
{
    if magic.len() == 7 && magic[0] == 99 && magic[1] == 111 && magic[2] == 110 && magic[3] == 110
        && magic[4] == 101 && magic[5] == 99 && magic[6] == 116 {
        assert(magic =~= connect_signal());
    }
}

} // verus!
