//! Typed shapes of the JSON resources the service returns.
//!
//! These are read-only value objects with no identity beyond their fields.
//! Every field is held as a plain value: an instant as seconds since the Unix
//! epoch, a URL as its text, and a fractional quantity (a weight, a nozzle
//! diameter) as the decimal text the server sent, so the value crosses the
//! decoding boundary unchanged.

use vstd::prelude::*;

verus! {

/// One printer bound to the account, as reported by the device service.
#[derive(Debug, Clone)]
pub struct Device {
    pub name: String,
    pub online: bool,
    pub dev_id: String,
    pub print_status: String,
    /// Nozzle diameter in millimetres, as decimal text.
    pub nozzle_diameter: String,
    pub dev_model_name: String,
    pub dev_access_code: String,
    pub dev_product_name: String,
}

/// One filament slot of the automatic filament-feed system used in a task.
#[derive(Debug, Clone)]
pub struct AMSDetail {
    pub position: usize,
    pub source_color: String,
    pub target_color: String,
    pub filament_id: String,
    pub filament_type: String,
    pub target_filament_type: String,
    /// Filament weight in grams, as decimal text.
    pub weight: String,
}

/// One print task of the account.
#[derive(Debug, Clone)]
pub struct Task {
    pub id: u64,
    pub design_id: u64,
    pub design_title: String,
    pub instance_id: u64,
    pub model_id: String,
    pub title: String,
    /// URL of the cover image, as text.
    pub cover: String,
    pub status: u64,
    pub feedback_status: u64,
    /// Start instant, seconds since the Unix epoch.
    pub start_time: i64,
    /// End instant, seconds since the Unix epoch.
    pub end_time: i64,
    /// Total filament weight in grams, as decimal text.
    pub weight: String,
    pub length: u64,
    pub cost_time: u64,
    pub profile_id: u64,
    pub plate_index: usize,
    pub plate_name: String,
    pub device_id: String,
    /// Filament slots used, in server response order.
    pub ams_detail_mapping: Vec<AMSDetail>,
    pub mode: String,
    pub is_public_profile: bool,
    pub is_printable: bool,
    pub device_model: String,
    pub device_name: String,
    pub bed_type: String,
}

/// Profile of the logged-in account.
#[derive(Debug, Clone)]
pub struct Account {
    pub uid: u64,
    pub email: String,
    pub name: String,
    /// URL of the avatar image, as text.
    pub avatar: String,
    pub fan_count: u64,
    pub follow_count: u64,
    pub like_count: u64,
    pub collection_count: u64,
    pub download_count: u64,
    pub product_models: Vec<String>,
    pub my_like_count: u64,
    pub favourites_count: u64,
    pub point: u64,
    pub personal: Personal,
}

/// Public-profile details nested in an [`Account`].
#[derive(Debug, Clone)]
pub struct Personal {
    pub bio: String,
    /// Profile links, each a URL as text.
    pub links: Vec<String>,
    /// Sum of task filament weights in grams, as decimal text.
    pub task_weight_sum: String,
    pub task_length_sum: u64,
    pub task_time_sum: u64,
    /// URL of the background image, as text.
    pub background_url: String,
}

/// Body of a successful login response.
#[derive(Debug)]
pub struct LoginResponse {
    pub access_token: String,
}

/// Body of a successful device-list response.
#[derive(Debug)]
pub struct DevicesResponse {
    pub devices: Vec<Device>,
}

/// Body of a successful task-list response.
#[derive(Debug)]
pub struct TasksResponse {
    pub total: usize,
    pub hits: Vec<Task>,
}

/// The device list surfaced to the caller is the `devices` array, unchanged
/// and in server order.
pub fn devices_from_response(response: DevicesResponse) -> (r: Vec<Device>)
    ensures
        r == response.devices,
{
    response.devices
}

/// Only the `hits` array of a task-list response is surfaced, unchanged and in
/// server order; the separate `total` count is deliberately not.
pub fn tasks_from_response(response: TasksResponse) -> (r: Vec<Task>)
    ensures
        r == response.hits,
{
    response.hits
}

} // verus!
