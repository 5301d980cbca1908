//! Moves a user's playlists from Deezer to Spotify.
//!
//! The verified core is the local OAuth callback coordinator: it parses the
//! redirect requests of both providers (`request`), keeps each provider's
//! authorization code in a single-assignment slot (`slot`), decides what the
//! accept loop replies and when it stops (`server`, `response`), and paces the
//! login waiters (`waiter`). Around it stand the rules of the migration
//! itself: which playlists move and which search results become tracks
//! (`playlist`), and the provider URLs and headers (`auth`).

pub mod auth;
pub mod logger;
pub mod playlist;
pub mod request;
pub mod response;
pub mod server;
pub mod slot;
pub mod waiter;
