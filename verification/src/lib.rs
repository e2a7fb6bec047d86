//! Turns a cloud-storage folder listing into syndication-feed items.
//!
//! Given a base listing URL, the library normalizes it into a listing-API
//! request URL, walks the backend's paginated listing page by page (the
//! caller performs the HTTP requests and hands each response body back),
//! filters out folder entries, and maps every file entry to a feed item
//! carrying a direct-download URL, size, MIME type, publish date and a
//! stable identifier.

pub mod errors;
pub mod strutil;
pub mod urls;
pub mod jsonio;
pub mod timefmt;
pub mod decode;
pub mod feed;
pub mod laws;
