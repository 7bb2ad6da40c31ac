//! A verified core for a torrent-metainfo gateway: an HTTP service that turns
//! a BitTorrent info-hash into a downloadable `.torrent` file.
//!
//! The library holds the logic that decides what the service does: parsing and
//! canonicalising info-hashes, building magnet identifiers, classifying the
//! torrent engine's answers, building the HTTP reply (status, headers, body),
//! and the timeout policy of the hardened front end. The surrounding process
//! (sockets, the engine itself, the async runtime) drives these functions and
//! performs the I/O they decide on.

pub mod client;
pub mod hex;
pub mod info_hash;
pub mod reply;
pub mod server;
pub mod timeout;
