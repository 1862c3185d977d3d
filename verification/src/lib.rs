//! Client-side model of a playlist service's root-list protocol.
//!
//! A [`RootList`] is a snapshot of the flat arrangement of playlists and
//! folder markers at some revision. A [`FolderRequest`] records ordered
//! add / remove / move operations against that revision and renders them
//! as a [`Changes`] payload. Fresh folder identifiers come from
//! [`generate_folder_uri`].
//!
//! Every function carries a contract over the views of its arguments.
//! Verus proves each of them, except for the few trusted items that face
//! code outside this crate; each of those says so in its documentation.

pub mod clock;
pub mod decimal;
pub mod delta;
pub mod endpoints;
pub mod identifier;
pub mod json;
pub mod laws;
pub mod request;
pub mod snapshot;
pub mod token;

pub use clock::{now, Clock, ClockError};
pub use decimal::decimal_string;
pub use delta::Changes;
pub use identifier::{generate_folder_uri, GenerateError};
pub use request::FolderRequest;
pub use snapshot::{RootList, SnapshotError};
pub use token::AccessTokenResponse;
