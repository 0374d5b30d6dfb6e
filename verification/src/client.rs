//! The cloud account client: holds the resolved region, the transport handle
//! and the issued token, and shapes every authenticated request.
//!
//! All fields are fixed once the client is assembled from a successful login;
//! concurrent calls share only this read-only state. The transport handle is
//! opaque here: the caller executes each shaped [`HttpRequest`] on it and
//! feeds the observed [`TransportOutcome`] back to the classifiers.

use vstd::prelude::*;
use vstd::string::StringExecFns;

use crate::http::spec_bearer_value;
use crate::http::spec_http_success;
use crate::http::spec_outcome_accepted;
use crate::http::accept_response;
use crate::http::bearer_value;
use crate::http::HttpRequest;
use crate::http::Method;
use crate::http::TransportOutcome;
use crate::region::spec_mqtt_host;
use crate::region::spec_iot_service_host;
use crate::region::spec_user_service_host;
use crate::region::Region;
use crate::resources::LoginResponse;
use crate::token::jwt_string_claim;
use crate::token::spec_token_decodes;
use crate::token::Token;
use crate::token::TokenError;

verus! {

/// How login fails.
#[derive(Clone, Copy, Debug, PartialEq, Eq, Structural)]
pub enum LoginError {
    /// Network-level failure or a non-success HTTP status.
    Transport,
    /// The returned access credential could not be decoded into a token.
    Decode,
}

/// Top-level facade over the cloud service: the resolved region and the token
/// issued at login, both fixed once assembled. The reusable transport handle
/// this state steers stays with the caller, at the network boundary.
#[derive(Debug)]
pub struct Client {
    pub region: Region,
    pub auth_token: Token,
}

/// Full URL of a user-service endpoint for a region.
pub open spec fn spec_user_service_url(region: Region, path: Seq<char>) -> Seq<char> {
    "https://"@ + spec_user_service_host(region) + path
}

/// Full URL of an IoT-service endpoint for a region.
pub open spec fn spec_iot_service_url(region: Region, path: Seq<char>) -> Seq<char> {
    "https://"@ + spec_iot_service_host(region) + path
}

/// Builds the full URL of a user-service endpoint.
pub fn user_service_url(region: Region, path: &str) -> (r: String)
    ensures
        r@ == spec_user_service_url(region, path@),
{
    let mut s = "https://".to_owned();
    s.append(region.user_service_host());
    s.append(path);
    s
}

/// Builds the full URL of an IoT-service endpoint.
pub fn iot_service_url(region: Region, path: &str) -> (r: String)
    ensures
        r@ == spec_iot_service_url(region, path@),
{
    let mut s = "https://".to_owned();
    s.append(region.iot_service_host());
    s.append(path);
    s
}

/// Shapes the login request: a POST of the credentials as a JSON body to the
/// region's account-service login endpoint, with no authentication header.
pub fn login_request(region: Region, email: &str, password: &str) -> (r: HttpRequest)
    ensures
        r.method is Post,
        r.url@ == spec_user_service_url(region, "/v1/user-service/user/login"@),
        r.query@.len() == 0,
        r.headers@.len() == 0,
        r.body@.len() == 2,
        r.body@[0].0@ == "account"@ && r.body@[0].1@ == email@,
        r.body@[1].0@ == "password"@ && r.body@[1].1@ == password@,
{
    let mut body: Vec<(String, String)> = Vec::new();
    body.push(("account".to_owned(), email.to_owned()));
    body.push(("password".to_owned(), password.to_owned()));
    HttpRequest {
        method: Method::Post,
        url: user_service_url(region, "/v1/user-service/user/login"),
        query: Vec::new(),
        headers: Vec::new(),
        body,
    }
}

/// Transport acceptance for the login exchange: a network failure or a
/// non-success status is a transport failure, never a decode failure.
pub fn accept_login_outcome(outcome: &TransportOutcome) -> (r: Result<u16, LoginError>)
    ensures
        match r {
            Ok(s) => *outcome == TransportOutcome::Response(s) && spec_http_success(s),
            Err(e) => e is Transport && !spec_outcome_accepted(*outcome),
        },
{
    match accept_response(outcome) {
        Ok(s) => Ok(s),
        Err(_) => Err(LoginError::Transport),
    }
}

impl Client {
    /// Assembles the client from a successful login: the returned access
    /// credential is passed to token issuance, whose failure surfaces as a
    /// decode error; region and token are fixed for the client's lifetime.
    pub fn from_login_response(region: Region, response: LoginResponse) -> (r: Result<
        Client,
        LoginError,
    >)
        ensures
            match r {
                Ok(c) => {
                    &&& spec_token_decodes(response.access_token@)
                    &&& c.region == region
                    &&& c.auth_token.jwt@ == response.access_token@
                    &&& jwt_string_claim(response.access_token@, "username"@)
                        == Some(c.auth_token.username@)
                },
                Err(e) => e is Decode && !spec_token_decodes(response.access_token@),
            },
    {
        match Token::try_from(response.access_token) {
            Ok(auth_token) => Ok(Client { region, auth_token }),
            Err(TokenError::Decode) => Err(LoginError::Decode),
        }
    }

    /// The bearer `Authorization` header attached to every authenticated call.
    fn auth_headers(&self) -> (r: Vec<(String, String)>)
        ensures
            r@.len() == 1,
            r@[0].0@ == "Authorization"@,
            r@[0].1@ == spec_bearer_value(self.auth_token.jwt@),
    {
        let mut headers: Vec<(String, String)> = Vec::new();
        headers.push(("Authorization".to_owned(), bearer_value(self.auth_token.jwt.as_str())));
        headers
    }

    /// Shapes the profile fetch: an authenticated GET of the account profile.
    pub fn profile_request(&self) -> (r: HttpRequest)
        ensures
            r.method is Get,
            r.url@ == spec_user_service_url(self.region, "/v1/user-service/my/profile"@),
            r.query@.len() == 0,
            r.headers@.len() == 1,
            r.headers@[0].0@ == "Authorization"@,
            r.headers@[0].1@ == spec_bearer_value(self.auth_token.jwt@),
            r.body@.len() == 0,
    {
        HttpRequest {
            method: Method::Get,
            url: user_service_url(self.region, "/v1/user-service/my/profile"),
            query: Vec::new(),
            headers: self.auth_headers(),
            body: Vec::new(),
        }
    }

    /// Shapes the device-list fetch: an authenticated GET of the account's
    /// bound devices from the IoT service.
    pub fn devices_request(&self) -> (r: HttpRequest)
        ensures
            r.method is Get,
            r.url@ == spec_iot_service_url(self.region, "/v1/iot-service/api/user/bind"@),
            r.query@.len() == 0,
            r.headers@.len() == 1,
            r.headers@[0].0@ == "Authorization"@,
            r.headers@[0].1@ == spec_bearer_value(self.auth_token.jwt@),
            r.body@.len() == 0,
    {
        HttpRequest {
            method: Method::Get,
            url: iot_service_url(self.region, "/v1/iot-service/api/user/bind"),
            query: Vec::new(),
            headers: self.auth_headers(),
            body: Vec::new(),
        }
    }

    /// Shapes the task-list fetch: an authenticated GET of a single page of at
    /// most 500 tasks. The device filter key is always sent: with no filter its
    /// value is the empty string, never an absent parameter.
    pub fn tasks_request(&self, only_device: Option<String>) -> (r: HttpRequest)
        ensures
            r.method is Get,
            r.url@ == spec_user_service_url(self.region, "/v1/user-service/my/tasks"@),
            r.query@.len() == 2,
            r.query@[0].0@ == "limit"@ && r.query@[0].1@ == "500"@,
            r.query@[1].0@ == "deviceId"@,
            r.query@[1].1@ == match only_device {
                Some(d) => d@,
                None => Seq::<char>::empty(),
            },
            r.headers@.len() == 1,
            r.headers@[0].0@ == "Authorization"@,
            r.headers@[0].1@ == spec_bearer_value(self.auth_token.jwt@),
            r.body@.len() == 0,
    {
        let device_id = match only_device {
            Some(d) => d,
            None => String::new(),
        };
        let mut query: Vec<(String, String)> = Vec::new();
        query.push(("limit".to_owned(), "500".to_owned()));
        query.push(("deviceId".to_owned(), device_id));
        HttpRequest {
            method: Method::Get,
            url: user_service_url(self.region, "/v1/user-service/my/tasks"),
            query,
            headers: self.auth_headers(),
            body: Vec::new(),
        }
    }

    /// The MQTT broker host for the client's region.
    pub fn mqtt_host(&self) -> (r: &'static str)
        ensures
            r@ == spec_mqtt_host(self.region),
    {
        self.region.mqtt_host()
    }
}

} // verus!
