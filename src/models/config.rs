use vstd::prelude::*;

verus! {

/// Command-line arguments of the service.
pub struct Cli {
    pub configs_path: String,
}

/// The read-only configuration snapshot shared by every call.
pub struct Config {
    pub jwt_secret: String,
    pub database_url: String,
    pub admin_master_key: String,
    pub bind_url: Option<String>,
}

} // verus!
