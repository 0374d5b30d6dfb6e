//! Region resolution: the pure mapping from an account's region to the hosts
//! the client talks to.
//!
//! Only China is routed to a distinct backend; every other region shares the
//! default host triple. The finer region values exist in the data model for
//! forward compatibility, so this asymmetry is deliberate and must not be
//! "completed" into a finer mapping.

use vstd::prelude::*;

verus! {

/// Geographic association of an account, used only to select backend hosts.
#[derive(Clone, Copy, Debug)]
pub enum Region {
    China,
    Europe,
    NorthAmerica,
    AsiaPacific,
    Other,
}

/// Host of the account/user-service REST API for a region.
pub open spec fn spec_user_service_host(region: Region) -> Seq<char> {
    if region is China {
        "api.bambulab.cn"@
    } else {
        "api.bambulab.com"@
    }
}

/// Host of the IoT/device-service REST API for a region.
pub open spec fn spec_iot_service_host(region: Region) -> Seq<char> {
    if region is China {
        "api.bambulab.cn"@
    } else {
        "api.bambulab.com"@
    }
}

/// Host of the MQTT broker for a region.
pub open spec fn spec_mqtt_host(region: Region) -> Seq<char> {
    if region is China {
        "cn.mqtt.bambulab.com"@
    } else {
        "us.mqtt.bambulab.com"@
    }
}

/// The three hosts a region resolves to: user-service REST, IoT-service REST,
/// and the MQTT broker.
pub open spec fn spec_host_triple(region: Region) -> (Seq<char>, Seq<char>, Seq<char>) {
    (spec_user_service_host(region), spec_iot_service_host(region), spec_mqtt_host(region))
}

impl Region {
    /// Whether this region is the one routed to the China-specific backend.
    pub open spec fn spec_is_china(self) -> bool {
        self is China
    }

    /// Endpoint selection distinguishes China from everything else.
    pub fn is_china(self) -> (r: bool)
        ensures
            r == self.spec_is_china(),
    {
        matches!(self, Region::China)
    }

    /// Host of the account/user-service REST API.
    pub fn user_service_host(self) -> (r: &'static str)
        ensures
            r@ == spec_user_service_host(self),
    {
        if self.is_china() {
            "api.bambulab.cn"
        } else {
            "api.bambulab.com"
        }
    }

    /// Host of the IoT/device-service REST API.
    pub fn iot_service_host(self) -> (r: &'static str)
        ensures
            r@ == spec_iot_service_host(self),
    {
        if self.is_china() {
            "api.bambulab.cn"
        } else {
            "api.bambulab.com"
        }
    }

    /// Host of the MQTT broker.
    pub fn mqtt_host(self) -> (r: &'static str)
        ensures
            r@ == spec_mqtt_host(self),
    {
        if self.is_china() {
            "cn.mqtt.bambulab.com"
        } else {
            "us.mqtt.bambulab.com"
        }
    }
}

/// Every region other than China resolves to one and the same host triple:
/// at the network layer Europe, NorthAmerica, AsiaPacific and Other are
/// indistinguishable.
pub proof fn lemma_host_triple_collapse(r1: Region, r2: Region)
    requires
        !r1.spec_is_china(),
        !r2.spec_is_china(),
    ensures
        spec_host_triple(r1) == spec_host_triple(r2),
{
}

} // verus!
