pub mod text;
pub mod json;
pub mod alarms;
pub mod protocol;
pub mod timing;
pub mod device;
pub mod config;
pub mod deployment;
pub mod reboot;
pub mod identify;
pub mod scripts;
pub mod extensions;
pub mod client;
pub mod session;
pub mod update;
pub mod auth;
pub mod console;
