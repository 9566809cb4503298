//! What each command is for, said of the values themselves: of the state of the host, of
//! the requests and replies, of the fields of the settings and of the texts.
pub mod configure;
pub mod desktop;
pub mod install;
pub mod logs;
pub mod preinstall;
pub mod service;
pub mod update_check;
pub mod values;
