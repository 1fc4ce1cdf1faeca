//! Typed requests to a running application over its event transport: the
//! codecs, the queries and commands, and the steps of a round trip.

pub mod codec;
pub mod command;
pub mod error;
pub mod events;
pub mod request;
pub mod session;
pub mod spotify;
pub mod sys;
pub mod text;
pub mod wire;

pub use error::{EventBuildError, EventError};
pub use spotify::{Spotify, SpotifyTrack, State};
