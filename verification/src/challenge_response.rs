use vstd::prelude::*;
use vstd::slice::slice_index_get;
use vstd::slice::slice_to_vec;

verus! {

/// Authentication failed: the peer's response to our challenge did not match
/// the response we expect from a holder of the same PSK.
#[derive(Debug)]
pub struct ResponseError;

/// The platform's random number source failed, so no fresh salt could be
/// drawn.
#[derive(Debug)]
pub struct RngError;

/// The SHA-256 digest of a byte sequence. The digest is a fixed function of
/// the input bytes alone; its definition is not spelled out here, and nothing
/// below claims anything about its value on particular inputs.
pub uninterp spec fn sha256_of(data: Seq<u8>) -> Seq<u8>;

/// Relies on sha2::Sha256 through digest::Digest::digest: computes the
/// SHA-256 digest of the input, a 32-byte value that depends on the input
/// bytes alone.
#[verifier::external_body]
fn sha256(data: &[u8]) -> (r: Vec<u8>)
    ensures
        r@ == sha256_of(data@),
        r@.len() == 32,
{
    let out = <sha2::Sha256 as sha2::Digest>::digest(data);
    out.to_vec()
}

#[verifier::external_type_specification]
#[verifier::external_body]
pub struct ExGetrandomError(getrandom::Error);

/// Relies on getrandom::fill: fills a buffer of the requested length with
/// bytes from the operating system's random number source, or reports that
/// the source failed. Nothing is claimed about the bytes themselves.
#[verifier::external_body]
fn os_random_bytes(len: usize) -> (r: Result<Vec<u8>, getrandom::Error>)
    ensures
        r is Ok ==> r->Ok_0@.len() == len,
{
    let mut buf = vec![0u8; len];
    match getrandom::fill(&mut buf) {
        Ok(()) => Ok(buf),
        Err(e) => Err(e),
    }
}

/// Append the bytes of `src` to `dst`.
pub(crate) fn append_bytes(dst: &mut Vec<u8>, src: &[u8])
    ensures
        final(dst)@ == old(dst)@ + src@,
{
    let mut i: usize = 0;
    while i < src.len()
        invariant
            i <= src@.len(),
            dst@ == old(dst)@ + src@.subrange(0, i as int),
        decreases src@.len() - i,
    {
        let b: u8 = *slice_index_get(src, i);
        dst.push(b);
        proof {
            assert(old(dst)@ + src@.subrange(0, i as int) + seq![src@[i as int]]
                =~= old(dst)@ + src@.subrange(0, i as int + 1));
        }
        i = i + 1;
    }
    proof {
        assert(src@.subrange(0, src@.len() as int) =~= src@);
    }
}

/// The response owed to a challenge: the SHA-256 digest of the PSK followed
/// by the salt, PSK first.
pub open spec fn response_of(psk: Seq<u8>, salt: Seq<u8>) -> Seq<u8> {
    sha256_of(psk + salt)
}

/// Whether checking response `a` against expected response `b` succeeds:
/// exactly when the two 32-byte values agree bytewise.
pub open spec fn responses_match(a: Seq<u8>, b: Seq<u8>) -> bool {
    a == b
}

/// A challenge: the local PSK paired with a 32-byte salt — freshly drawn for
/// a challenge we issue, or read off the wire for one the peer issued.
pub struct Challenge {
    psk: Vec<u8>,
    salt: Vec<u8>,
}

impl Challenge {
    /// The PSK half of the challenge.
    pub closed spec fn psk_view(&self) -> Seq<u8> {
        self.psk@
    }

    /// The salt half of the challenge.
    pub closed spec fn salt_view(&self) -> Seq<u8> {
        self.salt@
    }

    /// A challenge always carries a 32-byte salt.
    pub open spec fn wf(&self) -> bool {
        self.salt_view().len() == 32
    }

    /// Pair the local PSK with a given 32-byte salt.
    pub fn from_slice(psk: &[u8], salt: &[u8]) -> (c: Challenge)
        requires
            salt@.len() == 32,
        ensures
            c.wf(),
            c.psk_view() == psk@,
            c.salt_view() == salt@,
    {
        Challenge { psk: slice_to_vec(psk), salt: slice_to_vec(salt) }
    }

    /// Draw a fresh 32-byte salt from the operating system's random source
    /// and pair it with the local PSK. Fails only if the random source fails.
    pub fn create(psk: &[u8]) -> (r: Result<Challenge, RngError>)
        ensures
            r is Ok ==> r->Ok_0.wf() && r->Ok_0.psk_view() == psk@,
    {
        match os_random_bytes(32) {
            Ok(salt) => Ok(Challenge { psk: slice_to_vec(psk), salt }),
            Err(_) => Err(RngError),
        }
    }

    /// The salt bytes, to be sent to the peer as this side's challenge.
    pub fn salt_bytes(&self) -> (s: &Vec<u8>)
        ensures
            s@ == self.salt_view(),
    {
        &self.salt
    }

    /// Derive the response to this challenge: SHA-256 of the PSK followed by
    /// the salt.
    pub fn to_response(&self) -> (r: Response)
        ensures
            r@ == response_of(self.psk_view(), self.salt_view()),
            r.wf(),
    {
        let mut data: Vec<u8> = Vec::new();
        append_bytes(&mut data, self.psk.as_slice());
        append_bytes(&mut data, self.salt.as_slice());
        proof {
            assert(Seq::<u8>::empty() + self.psk@ + self.salt@ =~= self.psk@ + self.salt@);
        }
        let hash = sha256(data.as_slice());
        Response { hash }
    }
}

/// A 32-byte response to a challenge. Carries no salt; two responses are
/// equal exactly when their 32 bytes are equal.
pub struct Response {
    hash: Vec<u8>,
}

impl View for Response {
    type V = Seq<u8>;

    closed spec fn view(&self) -> Seq<u8> {
        self.hash@
    }
}

impl Response {
    /// A response is always 32 bytes.
    pub open spec fn wf(&self) -> bool {
        self@.len() == 32
    }

    /// Wrap 32 bytes, typically read off the wire, as a response.
    pub fn from_slice(hash: &[u8]) -> (r: Response)
        requires
            hash@.len() == 32,
        ensures
            r@ == hash@,
            r.wf(),
    {
        Response { hash: slice_to_vec(hash) }
    }

    /// The response bytes, to be sent to the peer.
    pub fn hash_bytes(&self) -> (h: &Vec<u8>)
        ensures
            h@ == self@,
    {
        &self.hash
    }

    /// Compare this response against another. Succeeds exactly when the two
    /// agree bytewise; every byte is inspected regardless of where the first
    /// difference lies.
    pub fn check(&self, other: &Response) -> (r: Result<(), ResponseError>)
        ensures
            r is Ok <==> responses_match(self@, other@),
    {
        if self.hash.len() != other.hash.len() {
            return Err(ResponseError);
        }
        let n = self.hash.len();
        let mut equal = true;
        let mut i: usize = 0;
        proof {
            assert(self@.subrange(0, 0) =~= other@.subrange(0, 0));
        }
        while i < n
            invariant
                n == self@.len(),
                n == other@.len(),
                i <= n,
                equal <==> self@.subrange(0, i as int) == other@.subrange(0, i as int),
            decreases n - i,
        {
            if self.hash[i] != other.hash[i] {
                equal = false;
            }
            proof {
                if equal {
                    assert(self@.subrange(0, i as int + 1) =~= other@.subrange(0, i as int + 1));
                } else {
                    if self@.subrange(0, i as int + 1) == other@.subrange(0, i as int + 1) {
                        assert(self@.subrange(0, i as int) =~= self@.subrange(
                            0,
                            i as int + 1,
                        ).subrange(0, i as int));
                        assert(other@.subrange(0, i as int) =~= other@.subrange(
                            0,
                            i as int + 1,
                        ).subrange(0, i as int));
                        assert(self@[i as int] == self@.subrange(0, i as int + 1)[i as int]);
                    }
                }
            }
            i = i + 1;
        }
        proof {
            assert(self@.subrange(0, n as int) =~= self@);
            assert(other@.subrange(0, n as int) =~= other@);
        }
        if equal {
            Ok(())
        } else {
            Err(ResponseError)
        }
    }
}

/// A response derived from a PSK and a salt always matches the response
/// derived from the same PSK and the same salt.
pub proof fn lemma_same_key_matches(psk: Seq<u8>, salt: Seq<u8>)
    ensures
        responses_match(response_of(psk, salt), response_of(psk, salt)),
{
}

/// Responses derived from distinct PSKs over the same salt do not match,
/// provided the digest tells the two concatenations apart (distinct inputs
/// whose digests collide are excluded).
pub proof fn lemma_distinct_key_mismatch(p: Seq<u8>, q: Seq<u8>, salt: Seq<u8>)
    requires
        p != q,
        response_of(p, salt) != response_of(q, salt),
    ensures
        !responses_match(response_of(p, salt), response_of(q, salt)),
{
}

} // verus!
