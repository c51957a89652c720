//! What the server is set up with.
use vstd::prelude::*;

verus! {

/// The account that attachments are uploaded to.
#[derive(Debug)]
pub struct CloudinaryConfig {
    pub cloud_name: String,
    pub api_key: String,
    pub api_secret: String,
}

/// The address to serve at, where none is set.
pub const DEFAULT_SERVER_URL: &'static str = "http://localhost:8080";

/// The address to serve at.
pub fn server_url(setting: Option<String>) -> (res: String)
    ensures
        res@ == (match setting {
            Some(url) => url@,
            None => DEFAULT_SERVER_URL@,
        }),
{
    match setting {
        Some(url) => url,
        None => DEFAULT_SERVER_URL.to_owned(),
    }
}

} // verus!
