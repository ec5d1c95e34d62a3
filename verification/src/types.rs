//! The values the All Debrid service sends back, holding what the client
//! reads of them, and the client's stored configuration.
use vstd::prelude::*;

verus! {

/// The client's configuration: the All Debrid API key.
#[derive(Debug)]
pub struct Config {
    pub apikey: String,
}

impl Default for Config {
    /// A configuration without an API key.
    fn default() -> (config: Config)
        ensures
            config.apikey@.len() == 0,
    {
        Config { apikey: String::new() }
    }
}

/// The account part of a user reply.
#[derive(Debug)]
pub struct UserData {
    pub username: String,
}

/// Reply to the user request.
#[derive(Debug)]
pub struct User {
    pub user: UserData,
}

/// Reply to a link unlock request.
#[derive(Debug)]
pub struct UnlockLink {
    pub link: String,
    pub host: String,
    pub filename: String,
    pub paws: bool,
    pub filesize: u64,
    pub id: String,
    pub delayed: Option<String>,
}

/// Reply to a magnet upload request: one entry per uploaded magnet.
#[derive(Debug)]
pub struct MagnetUpload {
    pub magnets: Vec<Magnet>,
}

/// One uploaded magnet.
#[derive(Debug)]
pub struct Magnet {
    pub magnet: String,
    pub error: Option<crate::response::Error>,
    pub hash: Option<String>,
    pub name: Option<String>,
    pub size: Option<u64>,
    pub ready: Option<bool>,
    pub id: Option<u64>,
}

/// Reply to a magnet status request.
#[derive(Debug)]
pub struct MagnetStatus {
    pub magnets: DetailedMagnet,
}

/// The state of one magnet on the service.
#[derive(Debug)]
pub struct DetailedMagnet {
    pub id: u64,
    pub filename: String,
    pub size: u64,
    pub hash: String,
    pub status: String,
    pub status_code: u64,
    pub downloaded: u64,
    pub uploaded: u64,
    pub seeders: u64,
    pub download_speed: u64,
    pub processing_perc: u64,
    pub upload_speed: u64,
    pub upload_date: u64,
    pub completion_date: u64,
    pub links: Vec<MagnetLink>,
    pub kind: String,
    pub notified: bool,
    pub version: u64,
}

/// One downloadable link of a magnet.
#[derive(Debug)]
pub struct MagnetLink {
    pub filename: String,
    pub size: u64,
    pub files: Vec<MagnetFile>,
    pub link: String,
}

/// A file, or a folder of entries, behind a magnet link.
#[derive(Debug)]
pub struct MagnetFile {
    pub n: String,
    pub e: Option<Box<Vec<MagnetFile>>>,
    pub s: Option<u64>,
}

} // verus!
