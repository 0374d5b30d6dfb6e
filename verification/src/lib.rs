//! Core of a client for a vendor 3D-printer cloud service: region-aware
//! endpoint resolution, bearer-token issuance from a login credential,
//! authenticated request shaping for each typed resource, response
//! classification, and camera-session URL construction.
//!
//! The network transport itself is left to the caller; every function here
//! works on plain values and carries a proved contract.

pub mod camera;
pub mod client;
pub mod http;
pub mod region;
pub mod resources;
pub mod token;

pub use camera::CameraSession;
pub use camera::DeviceCameraError;
pub use client::Client;
pub use client::LoginError;
pub use http::FetchError;
pub use http::HttpRequest;
pub use http::Method;
pub use http::TransportOutcome;
pub use region::Region;
pub use resources::Account;
pub use resources::AMSDetail;
pub use resources::Device;
pub use resources::DevicesResponse;
pub use resources::LoginResponse;
pub use resources::Personal;
pub use resources::Task;
pub use resources::TasksResponse;
pub use token::Token;
pub use token::TokenError;
