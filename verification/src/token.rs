//! What the token endpoint answers.

use std::time::SystemTime;
use vstd::prelude::*;

verus! {

/// A bearer token, the client it was issued to, and its terms.
#[derive(Debug)]
pub struct AccessTokenResponse {
    pub access_token: String,
    pub client_id: String,
    expiration_time: SystemTime,
    is_anonymous: bool,
}

pub struct AccessTokenResponseView {
    pub access_token: Seq<char>,
    pub client_id: Seq<char>,
    pub expiration_time: SystemTime,
    pub is_anonymous: bool,
}

impl View for AccessTokenResponse {
    type V = AccessTokenResponseView;

    closed spec fn view(&self) -> AccessTokenResponseView {
        AccessTokenResponseView {
            access_token: self.access_token@,
            client_id: self.client_id@,
            expiration_time: self.expiration_time,
            is_anonymous: self.is_anonymous,
        }
    }
}

impl AccessTokenResponse {
    /// The answer with these four parts.
    pub fn new(
        access_token: String,
        client_id: String,
        expiration_time: SystemTime,
        is_anonymous: bool,
    ) -> (r: Self)
        ensures
            r@ == (AccessTokenResponseView {
                access_token: access_token@,
                client_id: client_id@,
                expiration_time,
                is_anonymous,
            }),
    {
        AccessTokenResponse { access_token, client_id, expiration_time, is_anonymous }
    }

    /// The moment at which the token expires.
    pub fn expiration_time(&self) -> (r: &SystemTime)
        ensures
            *r == self@.expiration_time,
    {
        &self.expiration_time
    }

    /// Whether the token was issued without a login.
    pub fn is_anonymous(&self) -> (r: bool)
        ensures
            r == self@.is_anonymous,
    {
        self.is_anonymous
    }
}

/// How the requesting device describes itself.
#[derive(Debug, PartialEq)]
pub struct ClientTokenRequestJsSdkData {
    pub device_brand: String,
    pub device_model: String,
    pub os: String,
    pub os_version: String,
}

/// The client that asks for a client token.
#[derive(Debug, PartialEq)]
pub struct ClientTokenRequestData {
    pub client_id: String,
    pub client_version: String,
    pub js_sdk_data: ClientTokenRequestJsSdkData,
}

/// What is sent to the client-token endpoint.
#[derive(Debug, PartialEq)]
pub struct ClientTokenRequest {
    pub client_data: ClientTokenRequestData,
}

pub struct ClientTokenRequestView {
    pub client_id: Seq<char>,
    pub client_version: Seq<char>,
    pub device_brand: Seq<char>,
    pub device_model: Seq<char>,
    pub os: Seq<char>,
    pub os_version: Seq<char>,
}

impl View for ClientTokenRequest {
    type V = ClientTokenRequestView;

    open spec fn view(&self) -> ClientTokenRequestView {
        ClientTokenRequestView {
            client_id: self.client_data.client_id@,
            client_version: self.client_data.client_version@,
            device_brand: self.client_data.js_sdk_data.device_brand@,
            device_model: self.client_data.js_sdk_data.device_model@,
            os: self.client_data.js_sdk_data.os@,
            os_version: self.client_data.js_sdk_data.os_version@,
        }
    }
}

/// The request of the desktop web player for the client `client_id`.
pub open spec fn desktop_player(client_id: Seq<char>) -> ClientTokenRequestView {
    ClientTokenRequestView {
        client_id,
        client_version: "1.1.97.136.g81a082e9"@,
        device_brand: "unknown"@,
        device_model: "desktop"@,
        os: "Linux"@,
        os_version: "unknown"@,
    }
}

/// The request that asks for a client token for `client_id`.
pub fn client_token_request(client_id: &str) -> (r: ClientTokenRequest)
    ensures
        r@ == desktop_player(client_id@),
{
    ClientTokenRequest {
        client_data: ClientTokenRequestData {
            client_id: String::from_str(client_id),
            client_version: String::from_str("1.1.97.136.g81a082e9"),
            js_sdk_data: ClientTokenRequestJsSdkData {
                device_brand: String::from_str("unknown"),
                device_model: String::from_str("desktop"),
                os: String::from_str("Linux"),
                os_version: String::from_str("unknown"),
            },
        },
    }
}

} // verus!
