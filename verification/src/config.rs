//! The process configuration the uploader is handed at start: credentials,
//! the target bucket, and the public names built from it. Loaded from the
//! environment outside the library.

use vstd::prelude::*;

verus! {

#[derive(Clone, Debug)]
pub struct Config {
    pub discord_token: String,
    pub cdn_url: String,
    pub b2_key_id: String,
    pub b2_application_key: String,
    pub b2_bucket_path_prefix: String,
    pub b2_bucket_id: String,
}

} // verus!
