//! Records exchanged with the discovery service.

use vstd::prelude::*;

verus! {
/// Response from starting an OAuth profile import flow.
#[derive(Clone, Debug)]
pub struct StartAuthResponse {
    pub redirect_url: String,
    pub state: String,
}

/// Profile data imported from an external platform.
#[derive(Clone, Debug)]
pub struct ImportedProfile {
    pub platform: String,
    pub platform_id: String,
    pub display_name: String,
    pub username: String,
    pub avatar_base64: Option<String>,
}

/// Full result from polling the profile import endpoint.
#[derive(Clone, Debug)]
pub struct ImportResult {
    pub success: bool,
    pub profile: Option<ImportedProfile>,
}

/// Response from username registration.
#[derive(Clone, Debug)]
pub struct UsernameResponse {
    pub did: String,
    pub username: Option<String>,
    pub name: Option<String>,
    pub tag: Option<String>,
}

/// Response from a discovery settings update.
#[derive(Clone, Debug)]
pub struct DiscoveryStatus {
    pub did: String,
    pub discoverable: bool,
}

/// Response from a user search query.
#[derive(Clone, Debug)]
pub struct SearchUserResult {
    pub found: bool,
    pub did: Option<String>,
    pub username: Option<String>,
}

/// A single item from a username search.
#[derive(Clone, Debug)]
pub struct UsernameSearchItem {
    pub did: String,
    pub username: String,
}

/// Response from the username search endpoint.
#[derive(Clone, Debug)]
pub struct UsernameSearchResponse {
    pub results: Vec<UsernameSearchItem>,
}


} // verus!
