//! Camera-session URL issuance.
//!
//! A POST of the device identifier to the IoT-service ticket endpoint returns
//! an ephemeral session descriptor, which is combined into a single-use
//! streaming URL of a custom scheme. Only the request shaping and the URL
//! construction live here; the caller executes the exchange.

use vstd::prelude::*;
use vstd::string::StringExecFns;

use crate::client::spec_iot_service_url;
use crate::client::iot_service_url;
use crate::client::Client;
use crate::http::spec_bearer_value;
use crate::http::bearer_value;
use crate::http::HttpRequest;
use crate::http::Method;
use crate::resources::Device;

verus! {

#[verifier::external_type_specification]
#[verifier::external_body]
/// A parsed URL of the `url` crate, opaque here: it only carries the
/// constructed streaming URL back to the caller.
pub struct ExUrl(url::Url);

/// Whether the characters parse as a URL. Relied-on meaning: exactly the
/// strings `url::Url::parse` accepts, which depends on the characters alone.
pub uninterp spec fn wellformed_url(s: Seq<char>) -> bool;

/// Relies on url::Url::parse: parses and normalizes a URL string; the outcome
/// depends on the characters alone.
#[verifier::external_body]
fn parse_url(s: &str) -> (r: Option<url::Url>)
    ensures
        r is Some <==> wellformed_url(s@),
{
    url::Url::parse(s).ok()
}

/// How camera-URL issuance fails.
#[derive(Clone, Copy, Debug, PartialEq, Eq, Structural)]
pub enum DeviceCameraError {
    /// Network-level failure or a non-success HTTP status.
    Transport,
    /// The response body did not match the expected session-descriptor shape.
    Decode,
    /// A session field could not be combined into a well-formed URL.
    Url,
}

/// Ephemeral camera-session descriptor returned by the ticket endpoint; it is
/// combined into a streaming URL and not retained afterwards.
#[derive(Debug, Clone)]
pub struct CameraSession {
    pub ttcode: String,
    pub authkey: String,
    pub passwd: String,
    pub region: String,
}

/// The single-use streaming URL embedding a session descriptor: the session
/// code as the path, and auth key, password and region tag as query
/// parameters.
pub open spec fn spec_camera_url(
    ttcode: Seq<char>,
    authkey: Seq<char>,
    passwd: Seq<char>,
    region: Seq<char>,
) -> Seq<char> {
    "bambu:///"@ + ttcode + "?authkey="@ + authkey + "&passwd="@ + passwd + "&region="@ + region
}

impl CameraSession {
    /// Combines the session fields into the streaming-URL text.
    pub fn url_string(&self) -> (r: String)
        ensures
            r@ == spec_camera_url(self.ttcode@, self.authkey@, self.passwd@, self.region@),
    {
        let mut s = "bambu:///".to_owned();
        s.append(self.ttcode.as_str());
        s.append("?authkey=");
        s.append(self.authkey.as_str());
        s.append("&passwd=");
        s.append(self.passwd.as_str());
        s.append("&region=");
        s.append(self.region.as_str());
        s
    }

    /// Constructs the single-use streaming URL. Fails exactly when the
    /// combined text is not a well-formed URL, and that failure is
    /// distinguished from transport and decode failures.
    pub fn to_url(&self) -> (r: Result<url::Url, DeviceCameraError>)
        ensures
            r is Ok <==> wellformed_url(
                spec_camera_url(self.ttcode@, self.authkey@, self.passwd@, self.region@),
            ),
            r matches Err(e) ==> e is Url,
    {
        let text = self.url_string();
        match parse_url(text.as_str()) {
            Some(u) => Ok(u),
            None => Err(DeviceCameraError::Url),
        }
    }
}

impl Device {
    /// Shapes the camera-ticket exchange for this device: a POST of the device
    /// identifier to the IoT-service ticket endpoint, carrying the bearer
    /// header and, distinct from it, a `user-id` header with the account
    /// identifier. Both are required.
    pub fn ttcode_request(&self, client: &Client) -> (r: HttpRequest)
        ensures
            r.method is Post,
            r.url@ == spec_iot_service_url(client.region, "/v1/iot-service/api/user/ttcode"@),
            r.query@.len() == 0,
            r.headers@.len() == 2,
            r.headers@[0].0@ == "Authorization"@,
            r.headers@[0].1@ == spec_bearer_value(client.auth_token.jwt@),
            r.headers@[1].0@ == "user-id"@,
            r.headers@[1].1@ == client.auth_token.username@,
            r.body@.len() == 1,
            r.body@[0].0@ == "dev_id"@ && r.body@[0].1@ == self.dev_id@,
    {
        let mut headers: Vec<(String, String)> = Vec::new();
        headers.push(("Authorization".to_owned(), bearer_value(client.auth_token.jwt.as_str())));
        headers.push(("user-id".to_owned(), client.auth_token.username.clone()));
        let mut body: Vec<(String, String)> = Vec::new();
        body.push(("dev_id".to_owned(), self.dev_id.clone()));
        HttpRequest {
            method: Method::Post,
            url: iot_service_url(client.region, "/v1/iot-service/api/user/ttcode"),
            query: Vec::new(),
            headers,
            body,
        }
    }
}

} // verus!
