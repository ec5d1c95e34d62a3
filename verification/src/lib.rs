//! Building blocks of a command-line client for the All Debrid service:
//! the request URLs, the reading of the service's replies, and the
//! decisions taken on them while a magnet is uploaded, polled and unlocked.
pub mod api;
pub mod flow;
pub mod progress;
pub mod response;
pub mod text;
pub mod types;

pub use api::{link_unlock, magnet_status, magnet_upload, user_info, API};
pub use response::{read_response, Error, Res, Response, ResponseFault};
pub use types::{
    Config, DetailedMagnet, Magnet, MagnetFile, MagnetLink, MagnetStatus, MagnetUpload,
    UnlockLink, User, UserData,
};
