//! The addresses and header values of the service's endpoints. Sending the
//! requests is left to the caller.

use vstd::prelude::*;

verus! {

/// Text of the cookie header that carries the two session cookies.
pub open spec fn session_cookie_text(dc: Seq<char>, key: Seq<char>) -> Seq<char> {
    "sp_dc="@ + dc + ";sp_key="@ + key
}

/// Text of the authorization header for `access_token`.
pub open spec fn bearer_text(access_token: Seq<char>) -> Seq<char> {
    "Bearer "@ + access_token
}

/// Address of the root list of the user `user_id`.
pub open spec fn root_list_address(user_id: Seq<char>) -> Seq<char> {
    "https://spclient.wg.spotify.com/playlist/v2/user/"@ + user_id
        + "/rootlist?decorate=revision%2Clength%2Cattributes%2Ctimestamp%2Cowner"@
}

/// Address that takes changes to the root list of the user `user_id`.
pub open spec fn changes_address(user_id: Seq<char>) -> Seq<char> {
    "https://spclient.wg.spotify.com/playlist/v2/user/"@ + user_id + "/rootlist/changes"@
}

/// The cookie header value that presents the session cookies `dc` and `key`.
pub fn session_cookie(dc: &str, key: &str) -> (r: String)
    ensures
        r@ == session_cookie_text(dc@, key@),
{
    let mut r = String::from_str("sp_dc=");
    r.append(dc);
    r.append(";sp_key=");
    r.append(key);
    r
}

/// The authorization header value for `access_token`.
pub fn bearer(access_token: &str) -> (r: String)
    ensures
        r@ == bearer_text(access_token@),
{
    String::from_str("Bearer ").concat(access_token)
}

/// The address from which the root list of `user_id` is fetched.
pub fn root_list_url(user_id: &str) -> (r: String)
    ensures
        r@ == root_list_address(user_id@),
{
    let mut r = String::from_str("https://spclient.wg.spotify.com/playlist/v2/user/");
    r.append(user_id);
    r.append("/rootlist?decorate=revision%2Clength%2Cattributes%2Ctimestamp%2Cowner");
    r
}

/// The address to which changes to the root list of `user_id` are sent.
pub fn changes_url(user_id: &str) -> (r: String)
    ensures
        r@ == changes_address(user_id@),
{
    let mut r = String::from_str("https://spclient.wg.spotify.com/playlist/v2/user/");
    r.append(user_id);
    r.append("/rootlist/changes");
    r
}

} // verus!
