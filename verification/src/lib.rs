//! Verified core of the FRKN status page: translations, IP/VPN detection,
//! FRKN node parsing and status aggregation, and the page's decisions.
pub mod checks;
pub mod i18n;
pub mod json;
pub mod network;
pub mod page;
pub mod services;
pub mod text;
pub mod urls;
