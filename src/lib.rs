//! A newsletter subscription backend: configuration, form intake and the
//! decisions of its two routes, stated and proved.
pub mod configuration;
pub mod routes;
pub mod startup;
pub mod telemetry;
pub mod text;
