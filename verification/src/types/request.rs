//! The request shapes of the registration and activation flows, as plain
//! records mirroring the wire field names.
use vstd::prelude::*;

verus! {

#[derive(Debug, PartialEq)]
pub struct Address {
    pub country: String,
    pub zip_code: String,
}

#[derive(Debug, PartialEq)]
pub struct Audit {
    pub registration_channel: String,
}

#[derive(Debug, PartialEq)]
pub struct Credentials {
    pub login_username: String,
    pub password: Option<String>,
    pub type_field: String,
}

#[derive(Debug, PartialEq)]
pub struct Device {
    pub device_id: String,
    pub device_id_type: String,
    pub is_active: String,
    pub os: String,
    pub os_version: String,
    pub timezone: String,
}

#[derive(Debug, PartialEq)]
pub struct AcceptancePolicies {
    pub n1: bool,
    pub n4: bool,
}

#[derive(Debug, PartialEq)]
pub struct Policies {
    pub acceptance_policies: AcceptancePolicies,
}

#[derive(Debug, PartialEq)]
pub struct Details {
    pub legacy_id: Option<String>,
    pub mobile_app: Option<String>,
    pub email: Option<String>,
    pub enabled: Option<String>,
}

#[derive(Debug, PartialEq)]
pub struct Preference {
    pub details: Details,
    pub preference_id: i64,
}

#[derive(Debug, PartialEq)]
pub struct Subscription {
    pub opt_in_status: String,
    pub subscription_id: String,
}

#[derive(Debug, PartialEq)]
pub struct RegistrationRequest {
    pub address: Address,
    pub audit: Audit,
    pub credentials: Credentials,
    pub device: Device,
    pub email_address: String,
    pub first_name: String,
    pub last_name: String,
    pub opt_in_for_marketing: bool,
    pub policies: Policies,
    pub preferences: Vec<Preference>,
    pub subscriptions: Vec<Subscription>,
}

#[derive(Debug, PartialEq)]
pub struct ActivationRequest {
    pub activation_code: String,
    pub credentials: Credentials,
}

} // verus!
