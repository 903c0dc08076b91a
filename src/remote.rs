//! Requests to the remote service and the reading of its replies. Sending
//! them is left to the caller; this module decides what is sent and what a
//! reply means.

use vstd::prelude::*;
use crate::codec::{is_lower_hex, now};
use crate::protocol::{
    create_claim_message, create_message, fingerprint_at, fingerprint_of, generate_nonce,
    message_text, nonce_of, sign_message, signed,
};
use crate::wallet::{KeyError, Wallet};

verus! {

/// The body and fingerprint header of a registration ("connect") request.
#[derive(Clone, Debug)]
pub struct ConnectRequest {
    pub wallet_address: String,
    pub signature: String,
    pub message: String,
    pub timestamp: i64,
    pub fingerprint: String,
}

/// The body of a claim request.
#[derive(Clone, Debug)]
pub struct ClaimRequest {
    pub wallet_address: String,
    pub signature: String,
    pub message: String,
    pub timestamp: i64,
    pub nonce: String,
    pub fingerprint: String,
    pub captcha_token: String,
}

/// Failures of a step against the remote service.
#[derive(Clone, Debug, PartialEq, Eq)]
pub enum RemoteError {
    /// The wallet's key material is unusable.
    Key(KeyError),
    /// A claim was attempted without a CAPTCHA token.
    CaptchaRequired,
    /// Registration was answered with a status outside 2xx.
    Registration { status: u16, body: String },
    /// A claim was answered with a status outside 2xx.
    Claim { status: u16, body: String },
    /// A balance query was answered with a status outside 2xx.
    BalanceUnavailable { status: u16 },
    /// A balance reply held no numeric balance.
    InvalidBalance,
}

/// The service's registration endpoint.
pub open spec fn connect_url_text() -> Seq<char> {
    "https://soldrip.io/api/auth/connect"@
}

/// The service's claim endpoint.
pub open spec fn claim_url_text() -> Seq<char> {
    "https://soldrip.io/api/claim"@
}

/// The service's balance query for an address.
pub open spec fn balance_url_of(address: Seq<char>) -> Seq<char> {
    "https://soldrip.io/api/balance/"@ + address
}

/// The service's accrual-status query for an address. The service's
/// documentation names no path for this query; `/api/accumulation/` is assumed.
pub open spec fn accumulation_url_of(address: Seq<char>) -> Seq<char> {
    "https://soldrip.io/api/accumulation/"@ + address
}

/// The registration endpoint.
pub fn connect_url() -> (r: &'static str)
    ensures
        r@ == connect_url_text(),
{
    "https://soldrip.io/api/auth/connect"
}

/// The claim endpoint.
pub fn claim_url() -> (r: &'static str)
    ensures
        r@ == claim_url_text(),
{
    "https://soldrip.io/api/claim"
}

/// The balance query for a wallet address.
pub fn balance_url(address: &str) -> (r: String)
    ensures
        r@ == balance_url_of(address@),
{
    let mut s = "https://soldrip.io/api/balance/".to_owned();
    s.append(address);
    s
}

/// The accrual-status query for a wallet address (assumed path, see
/// `accumulation_url_of`).
pub fn accumulation_url(address: &str) -> (r: String)
    ensures
        r@ == accumulation_url_of(address@),
{
    let mut s = "https://soldrip.io/api/accumulation/".to_owned();
    s.append(address);
    s
}

/// An HTTP status in the success class.
pub open spec fn is_success(status: u16) -> bool {
    200 <= status < 300
}

/// The contents of a registration request for `wallet` made at the given times.
pub open spec fn connect_request_matches(
    req: ConnectRequest,
    wallet: Wallet,
    timestamp: i64,
    seconds: i64,
) -> bool {
    let message = message_text("connect"@, wallet.address@, timestamp as int, "0"@);
    &&& req.wallet_address@ == wallet.address@
    &&& req.message@ == message
    &&& signed(wallet.private_key@, message) == Ok::<Seq<char>, KeyError>(req.signature@)
    &&& req.timestamp == timestamp
    &&& req.fingerprint@ == fingerprint_of(wallet.address@, seconds as int)
}

/// The contents of a claim request for `wallet` made at the given times with `nonce`.
pub open spec fn claim_request_matches(
    req: ClaimRequest,
    wallet: Wallet,
    captcha_token: Seq<char>,
    timestamp: i64,
    seconds: i64,
    nonce: Seq<char>,
) -> bool {
    let message = message_text("claim"@, wallet.address@, timestamp as int, nonce);
    &&& req.wallet_address@ == wallet.address@
    &&& req.message@ == message
    &&& signed(wallet.private_key@, message) == Ok::<Seq<char>, KeyError>(req.signature@)
    &&& req.timestamp == timestamp
    &&& req.nonce@ == nonce
    &&& req.fingerprint@ == fingerprint_of(wallet.address@, seconds as int)
    &&& req.captcha_token@ == captcha_token
}

/// What building the registration request at the given times gives.
pub open spec fn connect_built(
    r: Result<ConnectRequest, KeyError>,
    wallet: Wallet,
    timestamp: i64,
    seconds: i64,
) -> bool {
    match r {
        Ok(req) => connect_request_matches(req, wallet, timestamp, seconds),
        Err(e) => signed(
            wallet.private_key@,
            message_text("connect"@, wallet.address@, timestamp as int, "0"@),
        ) == Err::<Seq<char>, KeyError>(e),
    }
}

/// What building the claim request at the given times with `nonce` gives.
pub open spec fn claim_built(
    r: Result<ClaimRequest, KeyError>,
    wallet: Wallet,
    captcha_token: Seq<char>,
    timestamp: i64,
    seconds: i64,
    nonce: Seq<char>,
) -> bool {
    match r {
        Ok(req) => claim_request_matches(req, wallet, captcha_token, timestamp, seconds, nonce),
        Err(e) => signed(
            wallet.private_key@,
            message_text("claim"@, wallet.address@, timestamp as int, nonce),
        ) == Err::<Seq<char>, KeyError>(e),
    }
}

/// Builds the registration request at a timestamp in milliseconds and a
/// fingerprint time in seconds.
pub fn connect_request_at(wallet: &Wallet, timestamp: i64, seconds: i64) -> (r: Result<
    ConnectRequest,
    KeyError,
>)
    ensures
        connect_built(r, *wallet, timestamp, seconds),
{
    let message = create_message(wallet.address.as_str(), timestamp, "connect");
    let signature = sign_message(wallet.private_key.as_str(), message.as_str())?;
    let fingerprint = fingerprint_at(wallet.address.as_str(), seconds);
    Ok(ConnectRequest {
        wallet_address: wallet.address.clone(),
        signature,
        message,
        timestamp,
        fingerprint,
    })
}

/// Builds the registration request now; fails with `ClockUnavailable`
/// where the clock cannot be read.
pub fn connect_request(wallet: &Wallet) -> (r: Result<ConnectRequest, KeyError>)
    ensures
        r != Err::<ConnectRequest, KeyError>(KeyError::ClockUnavailable) ==> exists|
            timestamp: i64,
            seconds: i64,
        | #[trigger] connect_built(r, *wallet, timestamp, seconds),
{
    match now() {
        Some((seconds, timestamp, _nanos)) => connect_request_at(wallet, timestamp, seconds),
        None => Err(KeyError::ClockUnavailable),
    }
}

/// Builds the claim request at the given times with a given nonce.
pub fn claim_request_at(
    wallet: &Wallet,
    captcha_token: &str,
    timestamp: i64,
    seconds: i64,
    nonce: String,
) -> (r: Result<ClaimRequest, KeyError>)
    ensures
        claim_built(r, *wallet, captcha_token@, timestamp, seconds, nonce@),
{
    let message = create_claim_message(wallet.address.as_str(), timestamp, nonce.as_str());
    let signature = sign_message(wallet.private_key.as_str(), message.as_str())?;
    let fingerprint = fingerprint_at(wallet.address.as_str(), seconds);
    Ok(ClaimRequest {
        wallet_address: wallet.address.clone(),
        signature,
        message,
        timestamp,
        nonce,
        fingerprint,
        captcha_token: captcha_token.to_owned(),
    })
}

/// Builds the claim request now, with a fresh random nonce of 64
/// lower-case hexadecimal digits; fails with `RandomSourceUnavailable` or
/// `ClockUnavailable` where the random source or the clock cannot be read.
pub fn claim_request(wallet: &Wallet, captcha_token: &str) -> (r: Result<ClaimRequest, KeyError>)
    ensures
        r != Err::<ClaimRequest, KeyError>(KeyError::RandomSourceUnavailable) && r != Err::<
            ClaimRequest,
            KeyError,
        >(KeyError::ClockUnavailable) ==> exists|timestamp: i64, seconds: i64, seed: Seq<u8>|
            seed.len() == 32 && #[trigger] claim_built(
                r,
                *wallet,
                captcha_token@,
                timestamp,
                seconds,
                nonce_of(seed),
            ),
        r matches Ok(req) ==> req.nonce@.len() == 64 && is_lower_hex(req.nonce@),
{
    let nonce = match generate_nonce() {
        Some(n) => n,
        None => return Err(KeyError::RandomSourceUnavailable),
    };
    match now() {
        Some((seconds, timestamp, _nanos)) => claim_request_at(
            wallet,
            captcha_token,
            timestamp,
            seconds,
            nonce,
        ),
        None => Err(KeyError::ClockUnavailable),
    }
}

/// A claim without a CAPTCHA token is always refused.
pub fn claim(wallet: &Wallet) -> (r: Result<u64, RemoteError>)
    ensures
        r == Err::<u64, RemoteError>(RemoteError::CaptchaRequired),
{
    Err(RemoteError::CaptchaRequired)
}

/// What a registration reply means: success on a 2xx status, else an
/// error carrying the status and body.
pub fn registration_outcome(status: u16, body: String) -> (r: Result<(), RemoteError>)
    ensures
        is_success(status) ==> r is Ok,
        !is_success(status) ==> r == Err::<(), RemoteError>(
            RemoteError::Registration { status, body },
        ),
{
    if 200 <= status && status < 300 {
        Ok(())
    } else {
        Err(RemoteError::Registration { status, body })
    }
}

/// What a claim reply means: on a 2xx status the claimed amount in lamports,
/// zero where the reply names none; else an error carrying status and body.
pub fn claim_outcome(status: u16, amount: Option<u64>, body: String) -> (r: Result<
    u64,
    RemoteError,
>)
    ensures
        is_success(status) ==> r == Ok::<u64, RemoteError>(
            match amount {
                Some(a) => a,
                None => 0,
            },
        ),
        !is_success(status) ==> r == Err::<u64, RemoteError>(
            RemoteError::Claim { status, body },
        ),
{
    if 200 <= status && status < 300 {
        match amount {
            Some(a) => Ok(a),
            None => Ok(0),
        }
    } else {
        Err(RemoteError::Claim { status, body })
    }
}

/// What a balance reply means: the balance in lamports on a 2xx status
/// that carries one.
pub fn balance_outcome(status: u16, balance: Option<u64>) -> (r: Result<u64, RemoteError>)
    ensures
        is_success(status) && balance is Some ==> r == Ok::<u64, RemoteError>(balance->Some_0),
        is_success(status) && balance is None ==> r == Err::<u64, RemoteError>(
            RemoteError::InvalidBalance,
        ),
        !is_success(status) ==> r == Err::<u64, RemoteError>(
            RemoteError::BalanceUnavailable { status },
        ),
{
    if 200 <= status && status < 300 {
        match balance {
            Some(b) => Ok(b),
            None => Err(RemoteError::InvalidBalance),
        }
    } else {
        Err(RemoteError::BalanceUnavailable { status })
    }
}

} // verus!
