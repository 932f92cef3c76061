//! Talking to the ChmlFrp API: request paths and bodies, and reading the
//! API's answers.

use vstd::prelude::*;
use vstd::string::StringSliceAdditionalSpecFns;
use crate::numbers::{i64_decimal, int_decimal};
use crate::sanitize::matches_at;
use crate::text::{chars_of, push_str, string_from};

verus! {

broadcast use vstd::string::group_string_axioms;

/// The API's base address.
pub open spec fn api_base() -> Seq<char> {
    "https://cf-v2.uapis.cn"@
}

/// Bytes left as they are by percent-encoding: ASCII letters, digits, `-`,
/// `.`, `_`, `~`.
pub open spec fn is_unreserved(b: u8) -> bool {
    (48 <= b <= 57) || (65 <= b <= 90) || (97 <= b <= 122) || b == 45 || b == 46 || b == 95 || b
        == 126
}

/// An upper-case hexadecimal digit.
pub open spec fn hex_upper(n: int) -> char {
    if n < 10 {
        (48 + n) as char
    } else {
        (55 + n) as char
    }
}

/// Percent-encoding of bytes: an unreserved byte stays, any other becomes
/// `%` and two upper-case hexadecimal digits.
pub open spec fn percent_encoded(b: Seq<u8>) -> Seq<char>
    decreases b.len(),
{
    if b.len() == 0 {
        Seq::empty()
    } else {
        percent_encoded(b.drop_last()) + if is_unreserved(b.last()) {
            seq![b.last() as char]
        } else {
            seq!['%', hex_upper((b.last() / 16) as int), hex_upper((b.last() % 16) as int)]
        }
    }
}

/// `urlencoding::encode`: percent-encodes every UTF-8 byte of the text
/// except ASCII letters, digits, `-`, `.`, `_` and `~`, with upper-case
/// hexadecimal digits.
#[verifier::external_body]
fn url_encode(data: &str) -> (r: String)
    ensures
        r@ == percent_encoded(data.spec_bytes()),
{
    urlencoding::encode(data).into_owned()
}

/// The full address of an endpoint.
pub fn api_url(endpoint: &str) -> (r: String)
    ensures
        r@ == api_base() + endpoint@,
{
    let mut v = chars_of("https://cf-v2.uapis.cn");
    push_str(&mut v, endpoint);
    string_from(&v)
}

/// The `authorization` header value for a token.
pub fn bearer(token: &str) -> (r: String)
    ensures
        r@ == "Bearer "@ + token@,
{
    let mut v = chars_of("Bearer ");
    push_str(&mut v, token);
    string_from(&v)
}

/// The endpoint of a node's details, the node name percent-encoded.
pub fn node_info_endpoint(node_name: &str) -> (r: String)
    ensures
        r@ == "/nodeinfo?node="@ + percent_encoded(node_name.spec_bytes()),
{
    let enc = url_encode(node_name);
    let mut v = chars_of("/nodeinfo?node=");
    push_str(&mut v, enc.as_str());
    string_from(&v)
}

/// The form body that takes a tunnel offline, the name percent-encoded.
pub fn offline_tunnel_body(tunnel_name: &str) -> (r: String)
    ensures
        r@ == "tunnel_name="@ + percent_encoded(tunnel_name.spec_bytes()),
{
    let enc = url_encode(tunnel_name);
    let mut v = chars_of("tunnel_name=");
    push_str(&mut v, enc.as_str());
    string_from(&v)
}

/// The endpoint that deletes a tunnel.
pub fn delete_tunnel_endpoint(tunnel_id: i32) -> (r: String)
    ensures
        r@ == "/delete_tunnel?tunnelid="@ + int_decimal(tunnel_id as int),
{
    let mut v = chars_of("/delete_tunnel?tunnelid=");
    let mut d = i64_decimal(tunnel_id as i64);
    v.append(&mut d);
    string_from(&v)
}

/// The result of an API answer: with code 200 its data (an error when
/// there is none); otherwise its message, or a generic one.
pub open spec fn api_outcome<T>(code: u32, msg: Option<String>, data: Option<T>) -> Result<T, Seq<char>> {
    if code == 200 {
        match data {
            Some(d) => Ok(d),
            None => Err("API 返回空数据"@),
        }
    } else {
        match msg {
            Some(m) => Err(m@),
            None => Err("请求失败"@),
        }
    }
}

/// Reads an API answer.
pub fn api_result<T>(code: u32, msg: Option<String>, data: Option<T>) -> (r: Result<T, String>)
    ensures
        r matches Ok(d) ==> api_outcome(code, msg, data) == Ok::<T, Seq<char>>(d),
        r matches Err(e) ==> api_outcome(code, msg, data) == Err::<T, Seq<char>>(e@),
{
    if code == 200 {
        match data {
            Some(d) => Ok(d),
            None => Err("API 返回空数据".to_owned()),
        }
    } else {
        match msg {
            Some(m) => Err(m),
            None => Err("请求失败".to_owned()),
        }
    }
}

/// The result of taking a tunnel offline: success needs code 200 and state
/// `success`; otherwise the answer's message, or a generic one.
pub open spec fn offline_outcome(code: u32, state: Seq<char>, msg: Option<String>) -> Result<(), Seq<char>> {
    if code == 200 && state == "success"@ {
        Ok(())
    } else {
        match msg {
            Some(m) => Err(m@),
            None => Err("下线隧道失败"@),
        }
    }
}

/// Reads the answer to taking a tunnel offline.
pub fn offline_result(code: u32, state: &str, msg: Option<String>) -> (r: Result<(), String>)
    ensures
        r matches Ok(_) ==> offline_outcome(code, state@, msg) is Ok,
        r matches Err(e) ==> offline_outcome(code, state@, msg) == Err::<(), Seq<char>>(e@),
{
    if code == 200 && crate::text::chars_eq(&chars_of(state), &chars_of("success")) {
        Ok(())
    } else {
        match msg {
            Some(m) => Err(m),
            None => Err("下线隧道失败".to_owned()),
        }
    }
}

/// Whether `p` occurs in `s`.
pub open spec fn contains_text(s: Seq<char>, p: Seq<char>) -> bool {
    exists|i: int| 0 <= i <= s.len() - p.len() && #[trigger] s.subrange(i, i + p.len()) == p
}

/// Whether `p` occurs in `s`.
pub fn contains_chars(s: &Vec<char>, p: &Vec<char>) -> (r: bool)
    ensures
        r == contains_text(s@, p@),
{
    if p.len() > s.len() {
        return false;
    }
    let last = s.len() - p.len();
    let mut i: usize = 0;
    loop
        invariant
            p.len() <= s.len(),
            last == s.len() - p.len(),
            i <= last,
            forall|j: int| 0 <= j < i ==> #[trigger] s@.subrange(j, j + p.len()) != p@,
        decreases last - i,
    {
        if matches_at(s, i, p) {
            return true;
        }
        if i == last {
            return false;
        }
        i = i + 1;
    }
}

/// Whether an API error says the sign-in is no longer valid.
pub open spec fn is_login_expired(e: Seq<char>) -> bool {
    ||| contains_text(e, "无效的登录状态"@)
    ||| contains_text(e, "授权已过期"@)
    ||| contains_text(e, "Token无效"@)
}

/// Recognises an API error that means the sign-in is no longer valid.
pub fn is_login_expired_error(e: &str) -> (r: bool)
    ensures
        r == is_login_expired(e@),
{
    let v = chars_of(e);
    contains_chars(&v, &chars_of("无效的登录状态")) || contains_chars(&v, &chars_of("授权已过期"))
        || contains_chars(&v, &chars_of("Token无效"))
}

} // verus!
