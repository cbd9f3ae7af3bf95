use vstd::prelude::*;

verus! {

/// The credentials and endpoints that one authentication runs with.
#[derive(Debug)]
pub struct Settings {
    pub client_id: String,
    pub client_secret: String,
    pub zugangsnummer: String,
    pub pin: String,
    pub oauth_url: String,
    pub url: String,
    pub save_file_path: String,
}

} // verus!
