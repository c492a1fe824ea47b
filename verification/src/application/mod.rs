//! The runtime of the gateway: its configuration, its schedules and its state.
pub mod config;
pub mod cron_schedule;
pub mod init_config;
pub mod state;
