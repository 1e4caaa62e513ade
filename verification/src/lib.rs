pub mod model;
pub mod query;
pub mod auth;
pub mod lock;
pub mod dispatch;
pub mod endpoints;
