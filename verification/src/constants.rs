//! Fixed values of the provider's API.

use vstd::prelude::*;

verus! {

/// Host that requests go to unless the configuration names another one.
pub const API_BASE_URL: &'static str = "https://api.upcloud.com";

/// Version segment that follows the base URL in every request.
pub const API_VERSION: &'static str = "1.3";

/// Version of this library, sent as part of the user agent.
pub const VERSION: &'static str = "0.1.0";

/// Product name that precedes the version in the user agent.
pub const USER_AGENT_PRODUCT: &'static str = "upcloud-rust-sdk/";

} // verus!
