//! Server and service monitoring: alert grace periods, configuration resolution,
//! health classification, storage bookkeeping and the viewer's state.
pub mod alert_engine;
pub mod alerts;
pub mod api;
pub mod config;
pub mod discord;
pub mod evaluation;
pub mod health;
pub mod metrics;
pub mod monitors;
pub mod naming;
pub mod service_check;
pub mod status;
pub mod storage;
pub mod text;
pub mod util;
pub mod viewer;
pub mod websocket;

