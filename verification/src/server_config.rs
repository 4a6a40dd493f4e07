//! The management server's configuration: the media tree it serves and the
//! authentication material for its login endpoint.

use vstd::prelude::*;

verus! {

#[derive(Debug)]
pub struct NodeConfig {
    pub media: Media,
    pub auth: Auth,
}

#[derive(Debug)]
pub struct Media {
    pub folder: String,
}

#[derive(Debug)]
pub struct Auth {
    pub password_hash: String,
    pub jwt_secret: String,
    pub jwt_maxage: i64,
    pub jwt_expires_in: String,
}

} // verus!
