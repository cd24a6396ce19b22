//! Rendering of the XiMonitor server's HTML pages and bootstrap data.

pub mod decimal;
pub mod json;
pub mod text;
pub mod ui;
pub mod server;
