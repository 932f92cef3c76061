//! Device sign-in and access tokens: reading the OAuth server's answers and
//! deciding when a stored token must be refreshed.

use vstd::prelude::*;
use crate::models::{StoredUser, UserInfo};
use crate::text::{chars_eq, chars_of, push_str, string_from};

verus! {

broadcast use vstd::string::group_string_axioms;

/// The device authorization the OAuth server grants.
#[derive(Debug, Clone)]
pub struct DeviceAuthorizationResponse {
    pub device_code: String,
    pub user_code: String,
    pub verification_uri: String,
    pub verification_uri_complete: Option<String>,
    pub expires_in: Option<u64>,
    pub interval: Option<u64>,
}

/// The OAuth server's token answer.
#[derive(Debug, Clone)]
pub struct DeviceTokenResponse {
    pub access_token: Option<String>,
    pub token_type: Option<String>,
    pub expires_in: Option<u64>,
    pub refresh_token: Option<String>,
    pub scope: Option<String>,
    pub error: Option<String>,
    pub error_description: Option<String>,
}

/// The message shown when the sign-in can no longer be used.
pub open spec fn expired_message() -> Seq<char> {
    "登录信息已过期，请重新登录"@
}

/// A copy of an optional string.
fn copy_opt(o: &Option<String>) -> (r: Option<String>)
    ensures
        r == *o,
{
    match o {
        Some(s) => Some(s.clone()),
        None => None,
    }
}

/// The outcome of a refresh: the answer when it carries an access token,
/// else its error description, its error code, or a generic message.
pub open spec fn refresh_outcome(resp: DeviceTokenResponse) -> Result<DeviceTokenResponse, Seq<char>> {
    if resp.access_token is Some {
        Ok(resp)
    } else {
        match resp.error_description {
            Some(d) => Err(d@),
            None => match resp.error {
                Some(e) => Err(e@),
                None => Err("刷新 token 失败"@),
            },
        }
    }
}

/// Reads the answer to a refresh request.
pub fn refresh_result(resp: DeviceTokenResponse) -> (r: Result<DeviceTokenResponse, String>)
    ensures
        r matches Ok(t) ==> refresh_outcome(resp) == Ok::<DeviceTokenResponse, Seq<char>>(t),
        r matches Err(e) ==> refresh_outcome(resp) == Err::<DeviceTokenResponse, Seq<char>>(e@),
{
    if resp.access_token.is_some() {
        Ok(resp)
    } else {
        match resp.error_description {
            Some(d) => Err(d),
            None => match resp.error {
                Some(e) => Err(e),
                None => Err("刷新 token 失败".to_owned()),
            },
        }
    }
}

/// What polling does after one answer of the token endpoint.
#[derive(Debug, Clone)]
pub enum PollStep {
    /// The user has signed in: the answer carries the token.
    Done,
    /// Not yet: poll again after the interval.
    Wait,
    /// The server asks to poll more slowly: wait five more seconds first.
    SlowDown,
    /// The sign-in failed for good.
    Fail(String),
}

/// The model of [`PollStep`].
pub enum PollOutcome {
    Done,
    Wait,
    SlowDown,
    Fail(Seq<char>),
}

/// The model of a poll decision.
pub open spec fn poll_view(p: PollStep) -> PollOutcome {
    match p {
        PollStep::Done => PollOutcome::Done,
        PollStep::Wait => PollOutcome::Wait,
        PollStep::SlowDown => PollOutcome::SlowDown,
        PollStep::Fail(m) => PollOutcome::Fail(m@),
    }
}

/// The decision after an answer: a token ends the polling; the errors
/// `authorization_pending` (or none) and `slow_down` keep it going;
/// `expired_token`, `access_denied` and any other error end it, the last
/// with the answer's description (or the error code).
pub open spec fn poll_step_of(resp: DeviceTokenResponse) -> PollOutcome {
    if resp.access_token is Some {
        PollOutcome::Done
    } else {
        match resp.error {
            None => PollOutcome::Wait,
            Some(e) => if e@ == "authorization_pending"@ {
                PollOutcome::Wait
            } else if e@ == "slow_down"@ {
                PollOutcome::SlowDown
            } else if e@ == "expired_token"@ {
                PollOutcome::Fail("设备授权已过期，请重新登录"@)
            } else if e@ == "access_denied"@ {
                PollOutcome::Fail("用户拒绝了授权"@)
            } else {
                PollOutcome::Fail(
                    "授权失败: "@ + match resp.error_description {
                        Some(d) => d@,
                        None => e@,
                    },
                )
            },
        }
    }
}

/// Decides how device-code polling goes on after an answer.
pub fn poll_step(resp: &DeviceTokenResponse) -> (r: PollStep)
    ensures
        poll_view(r) == poll_step_of(*resp),
{
    if resp.access_token.is_some() {
        return PollStep::Done;
    }
    match &resp.error {
        None => PollStep::Wait,
        Some(e) => {
            let ev = chars_of(e.as_str());
            if chars_eq(&ev, &chars_of("authorization_pending")) {
                PollStep::Wait
            } else if chars_eq(&ev, &chars_of("slow_down")) {
                PollStep::SlowDown
            } else if chars_eq(&ev, &chars_of("expired_token")) {
                PollStep::Fail("设备授权已过期，请重新登录".to_owned())
            } else if chars_eq(&ev, &chars_of("access_denied")) {
                PollStep::Fail("用户拒绝了授权".to_owned())
            } else {
                let mut v = chars_of("授权失败: ");
                match &resp.error_description {
                    Some(d) => push_str(&mut v, d.as_str()),
                    None => push_str(&mut v, e.as_str()),
                }
                PollStep::Fail(string_from(&v))
            }
        },
    }
}

/// Seconds between polls: the server's interval, at least five.
pub fn poll_interval_secs(interval: u64) -> (r: u64)
    ensures
        r == if interval >= 5 { interval } else { 5 },
{
    if interval >= 5 {
        interval
    } else {
        5
    }
}

/// When a token given `expires_in` seconds at time `now` expires.
pub open spec fn expiry(now: i64, expires_in: Option<u64>) -> Option<i64> {
    match expires_in {
        Some(e) => Some((now + (e as i64)) as i64),
        None => None,
    }
}

/// Whether the expiry time can be computed without overflow.
pub open spec fn expiry_fits(now: i64, expires_in: Option<u64>) -> bool {
    match expires_in {
        Some(e) => i64::MIN <= now + (e as i64) <= i64::MAX,
        None => true,
    }
}

fn expiry_exec(now: i64, expires_in: Option<u64>) -> (r: Option<i64>)
    requires
        expiry_fits(now, expires_in),
    ensures
        r == expiry(now, expires_in),
{
    match expires_in {
        Some(e) => {
            let e2 = #[verifier::truncate] (e as i64);
            Some(now + e2)
        },
        None => None,
    }
}

/// The stored sign-in made from the account, the access token and the
/// token answer at time `now`: token type `Bearer` unless the answer names one.
pub open spec fn signed_in_user(
    info: UserInfo,
    access_token: Seq<char>,
    resp: DeviceTokenResponse,
    now: i64,
    u: StoredUser,
) -> bool {
    &&& u.username == info.username
    &&& u.usergroup == info.usergroup
    &&& u.userimg == Some(info.userimg)
    &&& u.usertoken == Some(info.usertoken)
    &&& u.access_token matches Some(a) && a@ == access_token
    &&& u.refresh_token == resp.refresh_token
    &&& u.access_token_expires_at == expiry(now, resp.expires_in)
    &&& u.token_type matches Some(t) && t@ == match resp.token_type {
        Some(t) => t@,
        None => "Bearer"@,
    }
    &&& u.tunnel_count == Some(info.tunnel_count)
    &&& u.tunnel == Some(info.tunnel)
}

/// Builds the stored sign-in after the account has been fetched with a new
/// access token.
pub fn login_with_access_token(
    user_info: UserInfo,
    access_token: &str,
    token_response: &DeviceTokenResponse,
    now: i64,
) -> (r: StoredUser)
    requires
        expiry_fits(now, token_response.expires_in),
    ensures
        signed_in_user(user_info, access_token@, *token_response, now, r),
{
    let token_type = match &token_response.token_type {
        Some(t) => t.clone(),
        None => "Bearer".to_owned(),
    };
    StoredUser {
        username: user_info.username,
        usergroup: user_info.usergroup,
        userimg: Some(user_info.userimg),
        usertoken: Some(user_info.usertoken),
        access_token: Some(access_token.to_owned()),
        refresh_token: copy_opt(&token_response.refresh_token),
        access_token_expires_at: expiry_exec(now, token_response.expires_in),
        token_type: Some(token_type),
        tunnel_count: Some(user_info.tunnel_count),
        tunnel: Some(user_info.tunnel),
    }
}

} // verus!

verus! {

/// Which token a request uses.
#[derive(Debug, Clone)]
pub enum TokenChoice {
    /// Use this token as it is.
    Use(String),
    /// The access token is about to expire: refresh it with this refresh token.
    Refresh(String),
    /// No usable token: the user must sign in again.
    Expired,
}

/// The model of [`TokenChoice`].
pub enum TokenChoiceView {
    Use(Seq<char>),
    Refresh(Seq<char>),
    Expired,
}

/// The model of a token choice.
pub open spec fn token_choice_view(c: TokenChoice) -> TokenChoiceView {
    match c {
        TokenChoice::Use(t) => TokenChoiceView::Use(t@),
        TokenChoice::Refresh(t) => TokenChoiceView::Refresh(t@),
        TokenChoice::Expired => TokenChoiceView::Expired,
    }
}

/// The token to use at time `now`: the access token unless it expires
/// within 60 seconds (then refresh it, if there is a refresh token, else
/// the sign-in has expired); without an access token the legacy user
/// token; without either, the sign-in has expired.
pub open spec fn token_choice_of(user: StoredUser, now: i64) -> TokenChoiceView {
    match user.access_token {
        Some(token) => match user.access_token_expires_at {
            Some(exp) => if now >= exp - 60 {
                match user.refresh_token {
                    Some(rt) => TokenChoiceView::Refresh(rt@),
                    None => TokenChoiceView::Expired,
                }
            } else {
                TokenChoiceView::Use(token@)
            },
            None => TokenChoiceView::Use(token@),
        },
        None => match user.usertoken {
            Some(ut) => TokenChoiceView::Use(ut@),
            None => TokenChoiceView::Expired,
        },
    }
}

/// Whether the refresh margin can be taken off the expiry time.
pub open spec fn margin_fits(user: StoredUser) -> bool {
    match user.access_token_expires_at {
        Some(exp) => exp >= i64::MIN + 60,
        None => true,
    }
}

/// Decides which token to use for a request.
pub fn choose_token(user: &StoredUser, now: i64) -> (r: TokenChoice)
    requires
        margin_fits(*user),
    ensures
        token_choice_view(r) == token_choice_of(*user, now),
{
    match &user.access_token {
        Some(token) => match user.access_token_expires_at {
            Some(exp) => if now >= exp - 60 {
                match &user.refresh_token {
                    Some(rt) => TokenChoice::Refresh(rt.clone()),
                    None => TokenChoice::Expired,
                }
            } else {
                TokenChoice::Use(token.clone())
            },
            None => TokenChoice::Use(token.clone()),
        },
        None => match &user.usertoken {
            Some(ut) => TokenChoice::Use(ut.clone()),
            None => TokenChoice::Expired,
        },
    }
}

/// Stores a refreshed access token at time `now`: the new token, the new
/// refresh token (or the old one when none came), and the new expiry; the
/// new token is returned. Without a token in the answer the sign-in has expired.
pub fn apply_refreshed_token(user: &mut StoredUser, refreshed: DeviceTokenResponse, now: i64) -> (r: Result<String, String>)
    requires
        expiry_fits(now, refreshed.expires_in),
    ensures
        match refreshed.access_token {
            Some(t) => {
                &&& r matches Ok(s) && s@ == t@
                &&& final(user).access_token == Some(t)
                &&& final(user).refresh_token == match refreshed.refresh_token {
                    Some(rt) => Some(rt),
                    None => old(user).refresh_token,
                }
                &&& final(user).access_token_expires_at == expiry(now, refreshed.expires_in)
                &&& final(user).username == old(user).username
                &&& final(user).usergroup == old(user).usergroup
                &&& final(user).userimg == old(user).userimg
                &&& final(user).usertoken == old(user).usertoken
                &&& final(user).token_type == old(user).token_type
                &&& final(user).tunnel_count == old(user).tunnel_count
                &&& final(user).tunnel == old(user).tunnel
            },
            None => r matches Err(e) && e@ == expired_message() && *final(user) == *old(user),
        },
{
    match refreshed.access_token {
        Some(t) => {
            let out = t.clone();
            user.access_token = Some(t);
            match refreshed.refresh_token {
                Some(rt) => {
                    user.refresh_token = Some(rt);
                },
                None => {},
            }
            user.access_token_expires_at = expiry_exec(now, refreshed.expires_in);
            Ok(out)
        },
        None => Err("登录信息已过期，请重新登录".to_owned()),
    }
}

} // verus!

verus! {

// ---------------------------------------------------------------------------
// Requests to the OAuth server
// ---------------------------------------------------------------------------

/// The OAuth server's address.
pub open spec fn oauth_issuer() -> Seq<char> {
    "https://account-api.qzhua.net"@
}

/// The launcher's OAuth client id.
pub open spec fn oauth_client_id() -> Seq<char> {
    "019d4334b34972ca9fd41513e5703dfd"@
}

/// The address of an OAuth endpoint, such as `/oauth2/token`.
pub fn oauth_url(endpoint: &str) -> (r: String)
    ensures
        r@ == oauth_issuer() + endpoint@,
{
    let mut v = chars_of("https://account-api.qzhua.net");
    push_str(&mut v, endpoint);
    string_from(&v)
}

/// The form body asking for a device authorization.
pub fn device_authorization_body() -> (r: String)
    ensures
        r@ == "client_id="@ + oauth_client_id() + "&scope=profile email offline_access chmlfrp_api"@,
{
    let mut v = chars_of("client_id=");
    push_str(&mut v, "019d4334b34972ca9fd41513e5703dfd");
    push_str(&mut v, "&scope=profile email offline_access chmlfrp_api");
    string_from(&v)
}

/// The form body exchanging a device code for a token.
pub fn device_token_body(device_code: &str) -> (r: String)
    ensures
        r@ == "grant_type=urn:ietf:params:oauth:grant-type:device_code&device_code="@ + device_code@
            + "&client_id="@ + oauth_client_id(),
{
    let mut v = chars_of("grant_type=urn:ietf:params:oauth:grant-type:device_code&device_code=");
    push_str(&mut v, device_code);
    push_str(&mut v, "&client_id=");
    push_str(&mut v, "019d4334b34972ca9fd41513e5703dfd");
    string_from(&v)
}

/// The form body refreshing an access token.
pub fn refresh_token_body(refresh_token: &str) -> (r: String)
    ensures
        r@ == "grant_type=refresh_token&refresh_token="@ + refresh_token@ + "&client_id="@
            + oauth_client_id(),
{
    let mut v = chars_of("grant_type=refresh_token&refresh_token=");
    push_str(&mut v, refresh_token);
    push_str(&mut v, "&client_id=");
    push_str(&mut v, "019d4334b34972ca9fd41513e5703dfd");
    string_from(&v)
}

} // verus!

verus! {

/// Polling goes on only while no token has come and the server says the
/// authorization is pending (or says nothing), or asks to slow down; a
/// token ends it successfully, and every other error ends it with a
/// failure: an expired device code with `设备授权已过期，请重新登录`, a refusal
/// with `用户拒绝了授权`.
pub proof fn polling_goes_on_only_while_pending(resp: DeviceTokenResponse)
    ensures
        resp.access_token is Some ==> poll_step_of(resp) == PollOutcome::Done,
        resp.access_token is None ==> {
            &&& (poll_step_of(resp) == PollOutcome::Wait) <==> (resp.error is None || resp.error.unwrap()@
                == "authorization_pending"@)
            &&& (poll_step_of(resp) == PollOutcome::SlowDown) <==> (resp.error is Some
                && resp.error.unwrap()@ == "slow_down"@)
            &&& poll_step_of(resp) != PollOutcome::Done
            &&& (resp.error is Some && resp.error.unwrap()@ == "expired_token"@) ==> poll_step_of(resp)
                == PollOutcome::Fail("设备授权已过期，请重新登录"@)
            &&& (resp.error is Some && resp.error.unwrap()@ == "access_denied"@) ==> poll_step_of(resp)
                == PollOutcome::Fail("用户拒绝了授权"@)
        },
{
    reveal_strlit("authorization_pending");
    reveal_strlit("slow_down");
    reveal_strlit("expired_token");
    reveal_strlit("access_denied");
    assert("authorization_pending"@.len() == 21);
    assert("slow_down"@.len() == 9);
    assert("expired_token"@.len() == 13);
    assert("access_denied"@.len() == 13);
    assert("expired_token"@[0] != "access_denied"@[0]);
}

} // verus!
