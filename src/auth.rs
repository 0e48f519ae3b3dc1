use vstd::prelude::*;
use crate::error::{TransportError, TransportErrorCode};
use crate::json::{JsonValue, field_of, take_field};
use crate::framing::copy_bytes;

verus! {

#[verifier::external_type_specification]
#[verifier::external_body]
pub struct ExEd25519KeyPair(ring::signature::Ed25519KeyPair);

/// Whether Ed25519 accepts `signature` as a signature of `message` under the
/// public key `public_key`.
pub uninterp spec fn ed25519_accepts(
    public_key: Seq<u8>,
    message: Seq<u8>,
    signature: Seq<u8>,
) -> bool;

/// Relies on `ring::signature::Ed25519KeyPair::generate_pkcs8` with the
/// system's random source: a fresh key pair as a PKCS#8 document.
#[verifier::external_body]
fn generate_pkcs8_document() -> (r: Option<Vec<u8>>) {
    let rng = ring::rand::SystemRandom::new();
    ring::signature::Ed25519KeyPair::generate_pkcs8(&rng).ok().map(|doc| doc.as_ref().to_vec())
}

/// Relies on `ring::signature::Ed25519KeyPair::from_pkcs8`: the key pair of a
/// PKCS#8 document, or nothing when the document is rejected.
#[verifier::external_body]
fn key_pair_from_pkcs8(document: &[u8]) -> (r: Option<ring::signature::Ed25519KeyPair>) {
    ring::signature::Ed25519KeyPair::from_pkcs8(document).ok()
}

/// Relies on `ring::signature::KeyPair::public_key` of an Ed25519 key pair:
/// the 32 bytes of the public key.
#[verifier::external_body]
fn public_key_bytes(key_pair: &ring::signature::Ed25519KeyPair) -> (r: Vec<u8>)
    ensures
        r@.len() == 32,
{
    ring::signature::KeyPair::public_key(key_pair).as_ref().to_vec()
}


/// Relies on `ring::signature::Ed25519KeyPair::sign`: a 64-byte Ed25519
/// signature of the message, which Ed25519 verification accepts under the
/// pair's own public key. `Keypair::generate` alone fills a `Keypair`, and it
/// takes the stored public key from that same pair.
#[verifier::external_body]
fn sign_bytes(key: &Keypair, message: &[u8]) -> (r: Vec<u8>)
    ensures
        r@.len() == 64,
        ed25519_accepts(key.public_key_view(), message@, r@),
{
    key.signing_key.sign(message).as_ref().to_vec()
}

/// Relies on `ring::signature::UnparsedPublicKey::verify` with the Ed25519
/// algorithm, whose answer depends on the three byte strings alone.
#[verifier::external_body]
fn ed25519_verify(public_key: &[u8], message: &[u8], signature: &[u8]) -> (r: bool)
    ensures
        r == ed25519_accepts(public_key@, message@, signature@),
{
    ring::signature::UnparsedPublicKey::new(&ring::signature::ED25519, public_key).verify(
        message,
        signature,
    ).is_ok()
}

/// Relies on `ring::rand::SecureRandom::fill` of the system's random source:
/// overwrites the bytes of the buffer, keeping its length, or fails.
#[verifier::external_body]
fn fill_random(buffer: &mut Vec<u8>) -> (r: bool)
    ensures
        final(buffer)@.len() == old(buffer)@.len(),
{
    let rng = ring::rand::SystemRandom::new();
    ring::rand::SecureRandom::fill(&rng, buffer.as_mut_slice()).is_ok()
}

/// A fresh random challenge, or nothing when the random source fails.
fn random_challenge() -> (r: Option<Vec<u8>>)
    ensures
        r matches Some(c) ==> c@.len() == CHALLENGE_LEN,
{
    let mut challenge: Vec<u8> = Vec::new();
    while challenge.len() < CHALLENGE_LEN
        invariant
            challenge@.len() <= CHALLENGE_LEN,
        decreases CHALLENGE_LEN - challenge@.len(),
    {
        challenge.push(0u8);
    }
    if fill_random(&mut challenge) {
        Some(challenge)
    } else {
        None
    }
}

/// Length of the challenge a server sends.
pub const CHALLENGE_LEN: usize = 32;

/// An ephemeral Ed25519 signing identity.
pub struct Keypair {
    signing_key: ring::signature::Ed25519KeyPair,
    public_key_bytes: Vec<u8>,
}

pub open spec fn auth_error(e: TransportError) -> bool {
    e.code == TransportErrorCode::AuthenticationError
}

fn auth_failure(text: &str) -> (r: TransportError)
    ensures
        auth_error(r),
{
    TransportError::with_text(TransportErrorCode::AuthenticationError, text)
}

impl Keypair {
    pub closed spec fn public_key_view(&self) -> Seq<u8> {
        self.public_key_bytes@
    }

    /// A fresh key pair from the system's random source.
    pub fn generate() -> (r: Result<Keypair, TransportError>)
        ensures
            r matches Ok(k) ==> k.public_key_view().len() == 32,
            r matches Err(e) ==> auth_error(e),
    {
        let document = match generate_pkcs8_document() {
            Some(d) => d,
            None => {
                return Err(auth_failure("failed to generate a key pair"));
            },
        };
        let signing_key = match key_pair_from_pkcs8(document.as_slice()) {
            Some(k) => k,
            None => {
                return Err(auth_failure("failed to load the generated key pair"));
            },
        };
        let public_key_bytes = public_key_bytes(&signing_key);
        Ok(Keypair { signing_key, public_key_bytes })
    }

    pub fn public_key(&self) -> (r: &[u8])
        ensures
            r@ == self.public_key_view(),
    {
        self.public_key_bytes.as_slice()
    }

    /// A copy of the public key.
    pub fn public_key_copy(&self) -> (r: Vec<u8>)
        ensures
            r@ == self.public_key_view(),
    {
        copy_bytes(self.public_key_bytes.as_slice())
    }

    /// The 64-byte signature of `message`, which Ed25519 accepts under this
    /// key pair's public key.
    pub fn sign(&self, message: &[u8]) -> (r: Vec<u8>)
        ensures
            r@.len() == 64,
            ed25519_accepts(self.public_key_view(), message@, r@),
    {
        sign_bytes(self, message)
    }

    /// Checks a peer's signature: `AuthenticationError` unless Ed25519
    /// accepts it.
    pub fn verify(&self, public_key: &[u8], message: &[u8], signature: &[u8]) -> (r: Result<
        (),
        TransportError,
    >)
        ensures
            r is Ok <==> ed25519_accepts(public_key@, message@, signature@),
            r matches Err(e) ==> auth_error(e),
    {
        if ed25519_verify(public_key, message, signature) {
            Ok(())
        } else {
            Err(auth_failure("signature verification failed"))
        }
    }
}

/// The bytes a JSON array of integers in 0..=255 stands for.
pub open spec fn bytes_of_json(v: JsonValue) -> Option<Seq<u8>> {
    match v {
        JsonValue::Array(items) => if forall|i: int|
            0 <= i < items@.len() ==> (#[trigger] items@[i] matches JsonValue::Int(n) && 0 <= n
                <= 255) {
            Some(Seq::new(items@.len(), |i: int| items@[i]->Int_0 as u8))
        } else {
            None
        },
        _ => None,
    }
}

/// Writes bytes as a JSON array of integers.
pub fn bytes_to_json(bytes: &[u8]) -> (r: JsonValue)
    ensures
        bytes_of_json(r) == Some(bytes@),
{
    let mut items: Vec<JsonValue> = Vec::new();
    let mut i: usize = 0;
    while i < bytes.len()
        invariant
            i <= bytes@.len(),
            items@.len() == i,
            forall|j: int| 0 <= j < i ==> #[trigger] items@[j] == JsonValue::Int(bytes@[j] as i64),
        decreases bytes@.len() - i,
    {
        items.push(JsonValue::Int(bytes[i] as i64));
        i = i + 1;
    }
    let r = JsonValue::Array(items);
    proof {
        assert(Seq::new(items@.len(), |j: int| items@[j]->Int_0 as u8) =~= bytes@);
    }
    r
}

/// Reads bytes from a JSON array of integers in 0..=255.
pub fn bytes_from_json(v: JsonValue) -> (r: Option<Vec<u8>>)
    ensures
        match bytes_of_json(v) {
            Some(b) => r matches Some(out) && out@ == b,
            None => r is None,
        },
{
    let ghost input = v;
    match v {
        JsonValue::Array(items) => {
            let mut out: Vec<u8> = Vec::new();
            let mut i: usize = 0;
            while i < items.len()
                invariant
                    input == JsonValue::Array(items),
                    input == v,
                    i <= items@.len(),
                    out@.len() == i,
                    forall|j: int|
                        0 <= j < i ==> (#[trigger] items@[j] matches JsonValue::Int(n) && 0 <= n
                            <= 255),
                    forall|j: int| 0 <= j < i ==> #[trigger] out@[j] == items@[j]->Int_0 as u8,
                decreases items@.len() - i,
            {
                match &items[i] {
                    JsonValue::Int(n) => {
                        if *n < 0 || *n > 255 {
                            assert(!(items@[i as int] matches JsonValue::Int(n) && 0 <= n <= 255));
                            return None;
                        }
                        out.push(*n as u8);
                    },
                    _ => {
                        assert(!(items@[i as int] matches JsonValue::Int(n) && 0 <= n <= 255));
                        return None;
                    },
                }
                i = i + 1;
            }
            proof {
                assert(out@ =~= Seq::new(items@.len(), |j: int| items@[j]->Int_0 as u8));
            }
            Some(out)
        },
        _ => None,
    }
}

pub open spec fn key_public_key() -> Seq<char> {
    seq!['p', 'u', 'b', 'l', 'i', 'c', '_', 'k', 'e', 'y']
}

pub open spec fn key_challenge() -> Seq<char> {
    seq!['c', 'h', 'a', 'l', 'l', 'e', 'n', 'g', 'e']
}

pub open spec fn key_signature() -> Seq<char> {
    seq!['s', 'i', 'g', 'n', 'a', 't', 'u', 'r', 'e']
}

proof fn lemma_auth_keys()
    ensures
        "public_key"@ == key_public_key(),
        "challenge"@ == key_challenge(),
        "signature"@ == key_signature(),
{
    reveal_strlit("public_key");
    reveal_strlit("challenge");
    reveal_strlit("signature");
}

/// The two byte strings stored under `first` and `second` of a JSON object.
pub open spec fn byte_pair_of(v: JsonValue, first: Seq<char>, second: Seq<char>) -> Option<
    (Seq<u8>, Seq<u8>),
> {
    match v {
        JsonValue::Object(fields) => match (field_of(fields@, first), field_of(fields@, second)) {
            (Some(a), Some(b)) => match (bytes_of_json(a), bytes_of_json(b)) {
                (Some(x), Some(y)) => Some((x, y)),
                _ => None,
            },
            _ => None,
        },
        _ => None,
    }
}

fn byte_pair_to_json(first: &str, a: &[u8], second: &str, b: &[u8]) -> (r: JsonValue)
    requires
        first@ != second@,
    ensures
        byte_pair_of(r, first@, second@) == Some((a@, b@)),
{
    let mut fields: Vec<(String, JsonValue)> = Vec::new();
    fields.push((String::from_str(first), bytes_to_json(a)));
    fields.push((String::from_str(second), bytes_to_json(b)));
    proof {
        reveal_with_fuel(field_of, 3);
    }
    JsonValue::Object(fields)
}

fn byte_pair_from_json(v: JsonValue, first: &str, second: &str) -> (r: Option<(Vec<u8>, Vec<u8>)>)
    requires
        first@ != second@,
    ensures
        match byte_pair_of(v, first@, second@) {
            Some((x, y)) => r matches Some((a, b)) && a@ == x && b@ == y,
            None => r is None,
        },
{
    match v {
        JsonValue::Object(mut fields) => {
            let a = take_field(&mut fields, first);
            let b = take_field(&mut fields, second);
            match (a, b) {
                (Some(a), Some(b)) => match (bytes_from_json(a), bytes_from_json(b)) {
                    (Some(x), Some(y)) => Some((x, y)),
                    _ => None,
                },
                _ => None,
            }
        },
        _ => None,
    }
}

/// What a server sends first: its public key and a fresh challenge.
#[derive(Debug, Clone)]
pub struct AuthChallenge {
    pub public_key: Vec<u8>,
    pub challenge: Vec<u8>,
}

/// What a client answers: its public key and its signature of the challenge.
#[derive(Debug, Clone)]
pub struct AuthResponse {
    pub public_key: Vec<u8>,
    pub signature: Vec<u8>,
}

/// The challenge a wire value stands for.
pub open spec fn challenge_of(v: JsonValue) -> Option<(Seq<u8>, Seq<u8>)> {
    byte_pair_of(v, key_public_key(), key_challenge())
}

/// The answer a wire value stands for.
pub open spec fn response_of(v: JsonValue) -> Option<(Seq<u8>, Seq<u8>)> {
    byte_pair_of(v, key_public_key(), key_signature())
}

impl AuthChallenge {
    /// The wire form: `{"public_key": [...], "challenge": [...]}`.
    pub fn to_json(&self) -> (r: JsonValue)
        ensures
            challenge_of(r) == Some((self.public_key@, self.challenge@)),
    {
        proof {
            lemma_auth_keys();
        }
        byte_pair_to_json("public_key", self.public_key.as_slice(), "challenge", self.challenge.as_slice())
    }

    pub fn from_json(v: JsonValue) -> (r: Option<AuthChallenge>)
        ensures
            match challenge_of(v) {
                Some((k, c)) => r matches Some(a) && a.public_key@ == k && a.challenge@ == c,
                None => r is None,
            },
    {
        proof {
            lemma_auth_keys();
        }
        match byte_pair_from_json(v, "public_key", "challenge") {
            Some((public_key, challenge)) => Some(AuthChallenge { public_key, challenge }),
            None => None,
        }
    }
}

impl AuthResponse {
    /// The wire form: `{"public_key": [...], "signature": [...]}`.
    pub fn to_json(&self) -> (r: JsonValue)
        ensures
            response_of(r) == Some((self.public_key@, self.signature@)),
    {
        proof {
            lemma_auth_keys();
        }
        byte_pair_to_json("public_key", self.public_key.as_slice(), "signature", self.signature.as_slice())
    }

    pub fn from_json(v: JsonValue) -> (r: Option<AuthResponse>)
        ensures
            match response_of(v) {
                Some((k, s)) => r matches Some(a) && a.public_key@ == k && a.signature@ == s,
                None => r is None,
            },
    {
        proof {
            lemma_auth_keys();
        }
        match byte_pair_from_json(v, "public_key", "signature") {
            Some((public_key, signature)) => Some(AuthResponse { public_key, signature }),
            None => None,
        }
    }
}

/// The server's first step: its public key with a fresh 32-byte challenge.
pub fn server_challenge(server_keypair: &Keypair) -> (r: Result<AuthChallenge, TransportError>)
    ensures
        r matches Ok(c) ==> c.public_key@ == server_keypair.public_key_view() && c.challenge@.len()
            == 32,
        r matches Err(e) ==> auth_error(e),
{
    match random_challenge() {
        Some(challenge) => Ok(
            AuthChallenge { public_key: server_keypair.public_key_copy(), challenge },
        ),
        None => Err(auth_failure("failed to generate challenge")),
    }
}

/// Whether the server accepts an answer as received for its challenge: the
/// answer is well formed and Ed25519 accepts its signature of the challenge
/// under the public key it claims.
pub open spec fn server_accepts(challenge: Seq<u8>, answer: Option<JsonValue>) -> bool {
    answer matches Some(v) && response_of(v) matches Some((k, s)) && ed25519_accepts(
        k,
        challenge,
        s,
    )
}

/// The server's last step, on the client's answer as received: `None` when
/// the line could not be read or is no JSON. It succeeds exactly when the
/// answer is well formed and its signature of the challenge checks out under
/// the public key it claims; every failure is an `AuthenticationError`.
pub fn server_check_response(challenge: &[u8], answer: Option<JsonValue>) -> (r: Result<
    (),
    TransportError,
>)
    ensures
        r is Ok <==> server_accepts(challenge@, answer),
        r matches Err(e) ==> auth_error(e),
{
    let value = match answer {
        Some(v) => v,
        None => {
            return Err(auth_failure("failed to receive client response"));
        },
    };
    let response = match AuthResponse::from_json(value) {
        Some(r) => r,
        None => {
            return Err(auth_failure("failed to deserialize client response"));
        },
    };
    if ed25519_verify(response.public_key.as_slice(), challenge, response.signature.as_slice()) {
        Ok(())
    } else {
        Err(auth_failure("signature verification failed"))
    }
}

/// The client's step, on the server's challenge as received: `None` when the
/// line could not be read or is no JSON. A well-formed challenge is answered
/// with the client's public key and a signature of the challenge; anything
/// else is an `AuthenticationError`.
pub fn client_answer(client_keypair: &Keypair, challenge: Option<JsonValue>) -> (r: Result<
    AuthResponse,
    TransportError,
>)
    ensures
        r is Ok <==> (challenge matches Some(v) && challenge_of(v) is Some),
        r matches Ok(a) ==> a.public_key@ == client_keypair.public_key_view() && a.signature@.len()
            == 64 && (challenge matches Some(v) && challenge_of(v) matches Some((k, c))
            && ed25519_accepts(a.public_key@, c, a.signature@)),
        r matches Err(e) ==> auth_error(e),
{
    let value = match challenge {
        Some(v) => v,
        None => {
            return Err(auth_failure("failed to receive server challenge"));
        },
    };
    let challenge = match AuthChallenge::from_json(value) {
        Some(c) => c,
        None => {
            return Err(auth_failure("failed to deserialize server challenge"));
        },
    };
    let signature = client_keypair.sign(challenge.challenge.as_slice());
    Ok(AuthResponse { public_key: client_keypair.public_key_copy(), signature })
}

/// A completed handshake: when the client answers a challenge the server
/// sent, and the server receives that answer's wire form, the server accepts
/// it, whatever the two key pairs are.
pub proof fn lemma_handshake_completes(
    sent: AuthChallenge,
    challenge_wire: JsonValue,
    answer: AuthResponse,
    answer_wire: JsonValue,
)
    requires
        challenge_of(challenge_wire) == Some((sent.public_key@, sent.challenge@)),
        challenge_of(challenge_wire) matches Some((k, c)) && ed25519_accepts(
            answer.public_key@,
            c,
            answer.signature@,
        ),
        response_of(answer_wire) == Some((answer.public_key@, answer.signature@)),
    ensures
        server_accepts(sent.challenge@, Some(answer_wire)),
{
}

} // verus!
