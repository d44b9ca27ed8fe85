use vstd::prelude::*;
use bevy_renet::renet::ConnectToken;

verus! {

/// Identifies this game's protocol to the transport.
pub const PROTOCOL_ID: u64 = 7;
/// How long a credential stays valid, in seconds.
pub const CREDENTIAL_VALIDITY_SECS: u64 = 120;
/// Seconds of silence after which the transport drops a connection.
pub const CLIENT_TIMEOUT_SECS: i32 = 30;
/// Length of a join request: the client id, big-endian.
pub const HANDSHAKE_LEN: usize = 8;

#[verifier::external_type_specification]
#[verifier::external_body]
pub struct ExConnectToken(ConnectToken);

/// Where clients reach the server: an IPv4 address and a port.
#[derive(Debug, Clone, Copy)]
pub struct ServerAddress {
    pub ip: [u8; 4],
    pub port: u16,
}

/// The symmetric key that signs every credential, made once when the
/// process starts and shared by reference.
pub struct SigningKey {
    bytes: [u8; 32],
}

/// Why no credential was issued.
#[derive(Debug, Clone, Copy, PartialEq, Eq, Structural)]
pub enum CredentialError {
    /// The request held fewer than eight bytes.
    Truncated,
    /// The clock is so late that the expiry time does not fit.
    ClockOutOfRange,
}

/// The big-endian value of the first eight bytes of `b`.
pub open spec fn be_u64(b: Seq<u8>) -> int {
    b[0] as int * 0x100000000000000 + b[1] as int * 0x1000000000000 + b[2] as int * 0x10000000000
        + b[3] as int * 0x100000000 + b[4] as int * 0x1000000 + b[5] as int * 0x10000 + b[6] as int
        * 0x100 + b[7] as int
}

/// The client id a join request carries: its first eight bytes, big-endian.
/// A shorter request carries none.
pub fn parse_client_id(request: &[u8]) -> (r: Option<u64>)
    ensures
        r == (if request@.len() >= 8 { Some(be_u64(request@) as u64) } else { None::<u64> }),
        r is Some ==> r->0 as int == be_u64(request@),
{
    if request.len() < HANDSHAKE_LEN {
        return None;
    }
    let v: u64 = request[0] as u64 * 0x100000000000000 + request[1] as u64 * 0x1000000000000
        + request[2] as u64 * 0x10000000000 + request[3] as u64 * 0x100000000 + request[4] as u64
        * 0x1000000 + request[5] as u64 * 0x10000 + request[6] as u64 * 0x100 + request[7] as u64;
    Some(v)
}

/// Relies on rand::random: a value drawn from the thread's generator. Nothing
/// is known of it.
pub assume_specification<T>[ rand::random::<T> ]() -> (r: T)
    where
        rand::distributions::Standard: rand::distributions::Distribution<T>,
;

/// Relies on renet's ConnectToken::generate: a token for `req.client_id`,
/// bound to the one address given, that expires `req.expire_seconds` after
/// `req.issued_at`, signed with `key`. The library fails only for zero or more
/// than 32 addresses, and one is passed; the private part it encrypts has a
/// fixed size. Its nonce and session keys are random, so nothing more is said
/// of the token. It adds the two times, hence the bound.
#[verifier::external_body]
fn generate_token(req: &TokenRequest, key: &[u8; 32]) -> (r: Option<ConnectToken>)
    requires
        req.issued_at as int + req.expire_seconds as int <= u64::MAX as int,
    ensures
        r is Some,
{
    ConnectToken::generate(
        std::time::Duration::from_secs(req.issued_at),
        req.protocol_id,
        req.expire_seconds,
        req.client_id,
        req.timeout_seconds,
        vec![(req.server.ip, req.server.port).into()],
        None,
        key,
    ).ok()
}

impl SigningKey {
    /// A fresh random key.
    pub fn generate() -> (r: SigningKey) {
        SigningKey { bytes: rand::random::<[u8; 32]>() }
    }

    /// A key with the given bytes.
    pub fn from_bytes(bytes: [u8; 32]) -> (r: SigningKey)
        ensures
            r.key_bytes() == bytes,
    {
        SigningKey { bytes }
    }

    pub closed spec fn key_bytes(&self) -> [u8; 32] {
        self.bytes
    }

    /// The key's bytes.
    pub fn bytes(&self) -> (r: [u8; 32])
        ensures
            r == self.key_bytes(),
    {
        self.bytes
    }
}

/// The plain values a credential is minted from.
#[derive(Debug, Clone, Copy)]
pub struct TokenRequest {
    pub client_id: u64,
    pub protocol_id: u64,
    /// Seconds since the epoch when the credential is issued.
    pub issued_at: u64,
    pub expire_seconds: u64,
    pub timeout_seconds: i32,
    pub server: ServerAddress,
}

/// What a join request received at `now_secs` asks to be minted: a
/// credential for the id it carries, for `server`, this protocol and a
/// validity window of `CREDENTIAL_VALIDITY_SECS` from `now_secs`.
pub open spec fn token_request_spec(request: Seq<u8>, now_secs: u64, server: ServerAddress) -> Result<
    TokenRequest,
    CredentialError,
> {
    if request.len() < 8 {
        Err(CredentialError::Truncated)
    } else if now_secs as int + CREDENTIAL_VALIDITY_SECS as int > u64::MAX as int {
        Err(CredentialError::ClockOutOfRange)
    } else {
        Ok(
            TokenRequest {
                client_id: be_u64(request) as u64,
                protocol_id: PROTOCOL_ID,
                issued_at: now_secs,
                expire_seconds: CREDENTIAL_VALIDITY_SECS,
                timeout_seconds: CLIENT_TIMEOUT_SECS,
                server,
            },
        )
    }
}

/// The values to mint a credential from for a join request received at
/// `now_secs` (seconds since the epoch). A request shorter than eight bytes
/// is refused, and so is a clock whose expiry time would not fit.
pub fn token_request(request: &[u8], now_secs: u64, server: ServerAddress) -> (r: Result<TokenRequest, CredentialError>)
    ensures
        r == token_request_spec(request@, now_secs, server),
{
    let client_id = match parse_client_id(request) {
        Some(id) => id,
        None => return Err(CredentialError::Truncated),
    };
    if now_secs > u64::MAX - CREDENTIAL_VALIDITY_SECS {
        return Err(CredentialError::ClockOutOfRange);
    }
    Ok(
        TokenRequest {
            client_id,
            protocol_id: PROTOCOL_ID,
            issued_at: now_secs,
            expire_seconds: CREDENTIAL_VALIDITY_SECS,
            timeout_seconds: CLIENT_TIMEOUT_SECS,
            server,
        },
    )
}

/// Answers a join request received at `now_secs` (seconds since the epoch):
/// the credential described by `token_request`, signed with `key`, whenever
/// that request is valid, and its error otherwise.
pub fn issue_credential(request: &[u8], now_secs: u64, server: ServerAddress, key: &SigningKey) -> (r: Result<ConnectToken, CredentialError>)
    ensures
        r is Ok <==> token_request_spec(request@, now_secs, server) is Ok,
        r is Err ==> r->Err_0 == token_request_spec(request@, now_secs, server)->Err_0,
        (r matches Err(CredentialError::Truncated)) <==> request@.len() < 8,
        (r matches Err(CredentialError::ClockOutOfRange)) <==> (request@.len() >= 8 && now_secs
            as int + CREDENTIAL_VALIDITY_SECS as int > u64::MAX as int),
        request@.len() >= 8 && now_secs as int + CREDENTIAL_VALIDITY_SECS as int <= u64::MAX as int
            ==> r is Ok,
{
    let req = match token_request(request, now_secs, server) {
        Ok(req) => req,
        Err(e) => return Err(e),
    };
    let key_bytes = key.bytes();
    let token = generate_token(&req, &key_bytes);
    Ok(token.unwrap())
}

} // verus!
