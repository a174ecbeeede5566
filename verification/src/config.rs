//! The configuration the program starts with, as plain values. Reading
//! and decoding the configuration file is the surrounding program's work.

use vstd::prelude::*;

verus! {

/// Chess-service credentials.
#[derive(Clone, Debug)]
pub struct Lichess {
    pub account: String,
    pub access_token: String,
}

/// The chat channel to listen on.
#[derive(Clone, Debug)]
pub struct Twitch {
    pub channel: String,
}

/// Where the video frames go.
#[derive(Clone, Debug)]
pub struct Video {
    pub fifo: String,
}

/// The livestream outputs.
#[derive(Clone, Debug)]
pub struct Livestream {
    pub video: Video,
}

/// The whole configuration.
#[derive(Clone, Debug)]
pub struct Config {
    pub lichess: Lichess,
    pub twitch: Twitch,
    pub livestream: Livestream,
}

} // verus!
