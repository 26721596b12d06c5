//! The deployment request that the server sends with `update`.
use crate::deployment::DeploymentError;
use crate::json::{as_bool, get, Json, JsonValue};
use vstd::prelude::*;

verus! {

/// A deployment request from the server's `update` event.
#[derive(Debug)]
pub struct Deployment {
    pub update_available: bool,
    pub firmware_url: String,
    pub firmware_meta: FirmwareMeta,
    pub size: Option<u64>,
    pub checksum: Option<String>,
    pub partials_checksums: Option<Vec<String>>,
    pub deployment_id: Option<u64>,
    /// Fields of the request that have no field of their own here.
    pub extra: Vec<(String, JsonValue)>,
}

/// Metadata of the firmware that a deployment installs.
#[derive(Debug)]
pub struct FirmwareMeta {
    pub uuid: String,
    pub version: String,
    pub platform: String,
    pub architecture: String,
    pub product: String,
    pub author: Option<String>,
    pub description: Option<String>,
    pub fwup_version: Option<String>,
    pub vcs_identifier: Option<String>,
    pub misc: Option<String>,
    /// Fields of the metadata that have no field of their own here.
    pub extra: Vec<(String, JsonValue)>,
}

/// Whether the payload says explicitly that no update is available.
pub open spec fn update_declined(payload: Json) -> bool {
    match get(payload, "update_available"@) {
        Some(v) => as_bool(v) == Some(false),
        None => false,
    }
}

/// `update_available` when the request leaves it out.
pub fn default_update_available() -> (r: bool)
    ensures
        r,
{
    true
}

impl Deployment {
    /// The check made before a payload is read as a deployment: a payload
    /// whose `update_available` is `false` is no deployment.
    pub fn check_payload(payload: &JsonValue) -> (r: Result<(), DeploymentError>)
        ensures
            r is Ok <==> !update_declined(payload.model()),
            r matches Err(e) ==> e is NoUpdateAvailable,
    {
        match payload.get("update_available") {
            Some(v) => match v.as_bool() {
                Some(false) => Err(DeploymentError::NoUpdateAvailable),
                _ => Ok(()),
            },
            None => Ok(()),
        }
    }
}

} // verus!
