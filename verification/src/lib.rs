//! Verified core of the Voxlume audiobook web application: route handling,
//! pagination, link building, notification and subscription state, and the
//! small decisions that the user interface and the server functions make.
pub mod auth;
pub mod dates;
pub mod entities;
pub mod layout;
pub mod links;
pub mod notifications;
pub mod pagination;
pub mod requests;
pub mod routes;
pub mod settings;
pub mod sidebar;
pub mod subscriptions;
pub mod text;
pub mod theme;
