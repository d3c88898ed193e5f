//! Route handlers: `GET /health_check` and `POST /subscriptions`.
pub mod health_check;
pub mod subscriptions;
