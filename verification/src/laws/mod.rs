//! What holds of the commands as wholes: of every finished conversation with a host, and
//! of several conversations one after the other.
pub mod configure;
pub mod desktop;
pub mod install;
pub mod logs;
pub mod preinstall;
pub mod purpose;
pub mod service;
pub mod update_check;
