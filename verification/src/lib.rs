//! Verified core of a terminal Bilibili client: playback queue, search
//! presentation, CDN candidate bookkeeping, CDN host catalog rules and the
//! decisions of the local media proxy.

pub mod application;
pub mod catalog;
pub mod cdn;
pub mod navigation;
pub mod playback;
pub mod player;
pub mod proxy;
pub mod search;
pub mod text;
