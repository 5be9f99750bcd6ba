//! The credential model behind the authentication middleware: the bearer
//! token, the shared token cache with its single-acquisition discipline,
//! the bearer header encoding, and the fixed fallback order in which
//! credential sources are tried.

use vstd::prelude::*;
use vstd::slice::slice_to_vec;

verus! {

/// A bearer credential as the backend hands it out: the token bytes, which
/// the backend may omit, and an optional expiry instant (seconds).
#[derive(Debug)]
pub struct AccessToken {
    pub token: Option<Vec<u8>>,
    pub expires_at: Option<u64>,
}

/// Spec-level image of an `AccessToken`.
pub open spec fn token_view(t: AccessToken) -> (Option<Seq<u8>>, Option<u64>) {
    (
        match t.token {
            Some(v) => Some(v@),
            None => None,
        },
        t.expires_at,
    )
}

/// A token that can be attached at instant `now`: it carries bytes and has
/// not expired.
pub open spec fn spec_token_usable(t: AccessToken, now: u64) -> bool {
    &&& t.token is Some
    &&& (t.expires_at matches Some(e) ==> now < e)
}

/// A failure to obtain a credential.
#[derive(Clone, Debug, PartialEq, Eq)]
pub enum TokenError {
    /// The backend answered without token bytes.
    MissingAccessToken,
    /// The backend itself failed; the message is kept for diagnostics.
    Backend(String),
}

/// The token cache of one authenticator: nothing cached, one acquisition
/// in flight, or a token held.
#[derive(Debug)]
pub enum CacheState {
    Empty,
    Fetching,
    Ready(AccessToken),
}

/// What a request arriving at the cache must do: use the cached token,
/// begin the one backend acquisition, or await the acquisition already in
/// flight.
#[derive(Debug)]
pub enum TokenAction {
    Use(AccessToken),
    Begin,
    Await,
}

/// The cache's next state when a request arrives.
pub open spec fn spec_next_state(state: CacheState, now: u64) -> CacheState {
    match state {
        CacheState::Ready(t) => if spec_token_usable(t, now) {
            CacheState::Ready(t)
        } else {
            CacheState::Fetching
        },
        CacheState::Empty => CacheState::Fetching,
        CacheState::Fetching => CacheState::Fetching,
    }
}

/// How many backend acquisitions a request arriving at the cache starts.
pub open spec fn spec_begins(state: CacheState, now: u64) -> nat {
    match state {
        CacheState::Ready(t) => if spec_token_usable(t, now) {
            0
        } else {
            1
        },
        CacheState::Empty => 1,
        CacheState::Fetching => 0,
    }
}

/// The cache's state and the number of backend acquisitions started after
/// `n` requests arrive in turn, none resolving in between.
pub open spec fn run_requests(state: CacheState, now: u64, n: nat) -> (CacheState, nat)
    decreases n,
{
    if n == 0 {
        (state, 0)
    } else {
        let rest = run_requests(spec_next_state(state, now), now, (n - 1) as nat);
        (rest.0, spec_begins(state, now) + rest.1)
    }
}

/// The holder of the shared token cache.
#[derive(Debug)]
pub struct Authenticator {
    pub state: CacheState,
}

impl Authenticator {
    /// An authenticator with nothing cached.
    pub fn new() -> (a: Authenticator)
        ensures
            a.state is Empty,
    {
        Authenticator { state: CacheState::Empty }
    }

    /// Serves one request from the cache: a usable token is handed out and
    /// the cache is untouched; with an acquisition in flight the request
    /// awaits it; otherwise this request begins the one acquisition.
    pub fn token(&mut self, now: u64) -> (a: TokenAction)
        ensures
            final(self).state == spec_next_state(old(self).state, now),
            spec_begins(old(self).state, now) == 1 <==> a is Begin,
            ({
                match old(self).state {
                    CacheState::Ready(t) => {
                        if spec_token_usable(t, now) {
                            a matches TokenAction::Use(t2) && token_view(t2) == token_view(t)
                        } else {
                            a is Begin
                        }
                    },
                    CacheState::Empty => a is Begin,
                    CacheState::Fetching => a is Await,
                }
            }),
    {
        let usable = match &self.state {
            CacheState::Ready(t) => {
                let has_bytes = t.token.is_some();
                let unexpired = match t.expires_at {
                    Some(e) => now < e,
                    None => true,
                };
                has_bytes && unexpired
            },
            _ => false,
        };
        if usable {
            match &self.state {
                CacheState::Ready(t) => {
                    let copy = AccessToken {
                        token: match &t.token {
                            Some(v) => Some(slice_to_vec(v.as_slice())),
                            None => None,
                        },
                        expires_at: t.expires_at,
                    };
                    TokenAction::Use(copy)
                },
                _ => vstd::pervasive::unreached(),
            }
        } else {
            match &self.state {
                CacheState::Fetching => TokenAction::Await,
                _ => {
                    self.state = CacheState::Fetching;
                    TokenAction::Begin
                },
            }
        }
    }

    /// Installs the outcome of the in-flight acquisition: a token fills the
    /// cache; a failure empties it, so the next request may retry — one
    /// failed acquisition does not poison later ones.
    pub fn fetch_resolved(&mut self, result: Result<AccessToken, TokenError>)
        ensures
            result matches Ok(t) ==> final(self).state == CacheState::Ready(t),
            result is Err ==> final(self).state is Empty,
    {
        match result {
            Ok(t) => {
                self.state = CacheState::Ready(t);
            },
            Err(_) => {
                self.state = CacheState::Empty;
            },
        }
    }
}

/// With an acquisition in flight, arriving requests start none and the
/// cache stays as it is.
proof fn lemma_fetching_starts_none(now: u64, n: nat)
    ensures
        run_requests(CacheState::Fetching, now, n) == (CacheState::Fetching, 0nat),
    decreases n,
{
    if n > 0 {
        lemma_fetching_starts_none(now, (n - 1) as nat);
    }
}

/// Law: any number of requests arriving with no usable cached token and no
/// acquisition in flight start exactly one backend acquisition: the first
/// begins it, all later ones await it.
pub proof fn lemma_single_acquisition(state: CacheState, now: u64, n: nat)
    requires
        n >= 1,
        !(state matches CacheState::Ready(t) && spec_token_usable(t, now)),
        !(state is Fetching),
    ensures
        run_requests(state, now, n).1 == 1,
        run_requests(state, now, n).0 is Fetching,
{
    assert(spec_begins(state, now) == 1);
    assert(spec_next_state(state, now) is Fetching);
    lemma_fetching_starts_none(now, (n - 1) as nat);
}

/// Law: once the acquisition resolves into a usable token, every request
/// proceeds with it and none touches the backend.
pub proof fn lemma_all_proceed_after_refresh(t: AccessToken, now: u64, n: nat)
    requires
        spec_token_usable(t, now),
    ensures
        run_requests(CacheState::Ready(t), now, n) == (CacheState::Ready(t), 0nat),
    decreases n,
{
    if n > 0 {
        lemma_all_proceed_after_refresh(t, now, (n - 1) as nat);
    }
}

/// A token whose bytes cannot stand in a header value.
#[derive(Clone, Copy, Debug, PartialEq, Eq, Structural)]
pub struct InvalidBearerToken {}

/// A byte allowed in a header value: horizontal tab, or any byte from 32
/// up except delete (127).
pub open spec fn header_value_byte_ok(b: u8) -> bool {
    b == 9 || (32 <= b && b != 127)
}

/// "Bearer "
pub open spec fn bearer_prefix() -> Seq<u8> {
    seq!['B' as u8, 'e' as u8, 'a' as u8, 'r' as u8, 'e' as u8, 'r' as u8, ' ' as u8]
}

/// "authorization"
pub open spec fn authorization_name() -> Seq<u8> {
    seq![
        'a' as u8,
        'u' as u8,
        't' as u8,
        'h' as u8,
        'o' as u8,
        'r' as u8,
        'i' as u8,
        'z' as u8,
        'a' as u8,
        't' as u8,
        'i' as u8,
        'o' as u8,
        'n' as u8,
    ]
}

/// The authorization header's name, as bytes.
pub fn authorization_header_name() -> (r: Vec<u8>)
    ensures
        r@ == authorization_name(),
{
    let arr: [u8; 13] = [
        'a' as u8,
        'u' as u8,
        't' as u8,
        'h' as u8,
        'o' as u8,
        'r' as u8,
        'i' as u8,
        'z' as u8,
        'a' as u8,
        't' as u8,
        'i' as u8,
        'o' as u8,
        'n' as u8,
    ];
    let r = slice_to_vec(arr.as_slice());
    proof {
        assert(r@ =~= authorization_name());
    }
    r
}

/// Encodes a bearer authorization header value: succeeds exactly when
/// every token byte may stand in a header value, and then yields the
/// "Bearer "-prefixed bytes; header-unsafe bytes are a distinct error,
/// never a malformed request.
pub fn bearer_value(token: &[u8]) -> (r: Result<Vec<u8>, InvalidBearerToken>)
    ensures
        r is Ok <==> (forall|i: int|
            0 <= i < token@.len() ==> #[trigger] header_value_byte_ok(token@[i])),
        r matches Ok(v) ==> v@ == bearer_prefix() + token@,
{
    let mut i: usize = 0;
    while i < token.len()
        invariant
            i <= token.len(),
            forall|j: int| 0 <= j < i ==> #[trigger] header_value_byte_ok(token@[j]),
        decreases token.len() - i,
    {
        let b = token[i];
        if !(b == 9 || (32 <= b && b != 127)) {
            proof {
                assert(!header_value_byte_ok(token@[i as int]));
            }
            return Err(InvalidBearerToken {  });
        }
        i += 1;
    }
    let prefix: [u8; 7] = [
        'B' as u8,
        'e' as u8,
        'a' as u8,
        'r' as u8,
        'e' as u8,
        'r' as u8,
        ' ' as u8,
    ];
    let mut out: Vec<u8> = slice_to_vec(prefix.as_slice());
    let mut rest: Vec<u8> = slice_to_vec(token);
    out.append(&mut rest);
    proof {
        assert(prefix@ =~= bearer_prefix());
        assert(out@ =~= bearer_prefix() + token@);
    }
    Ok(out)
}

/// Where a credential can come from, in the fixed order they are tried.
#[derive(Clone, Copy, Debug, PartialEq, Eq, Structural)]
pub enum CredentialSource {
    /// User-delegated credentials read from the configured file.
    AuthorizedUser,
    /// Workload-federation credentials read from the configured file.
    ExternalAccount,
    /// Ambient discovery found a service-account credential.
    AdcServiceAccount,
    /// Ambient discovery fell back to the instance metadata endpoint.
    AdcInstanceMetadata,
}

/// Picks the credential source, preserving the fixed fallback order: a
/// configured credential file is tried first as user-delegated, then as
/// workload-federation credentials; everything else falls back to ambient
/// discovery.
pub fn choose_credential_source(
    has_credentials_path: bool,
    authorized_user_ok: bool,
    external_account_ok: bool,
    adc_is_service_account: bool,
) -> (r: CredentialSource)
    ensures
        has_credentials_path && authorized_user_ok ==> r == CredentialSource::AuthorizedUser,
        has_credentials_path && !authorized_user_ok && external_account_ok ==> r
            == CredentialSource::ExternalAccount,
        !(has_credentials_path && (authorized_user_ok || external_account_ok)) ==> r == (
        if adc_is_service_account {
            CredentialSource::AdcServiceAccount
        } else {
            CredentialSource::AdcInstanceMetadata
        }),
{
    if has_credentials_path && authorized_user_ok {
        CredentialSource::AuthorizedUser
    } else if has_credentials_path && external_account_ok {
        CredentialSource::ExternalAccount
    } else if adc_is_service_account {
        CredentialSource::AdcServiceAccount
    } else {
        CredentialSource::AdcInstanceMetadata
    }
}

} // verus!
