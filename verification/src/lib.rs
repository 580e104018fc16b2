//! Verified core of the Commanda remote-control companion.
pub mod cache;
pub mod clock;
pub mod mpris;
pub mod player_scan;
pub mod qr_code;
pub mod routes;
pub mod server;
pub mod text;
pub mod user;
pub mod wallpaper;
pub mod weather;
