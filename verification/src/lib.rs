//! Verified core of an FTP image-download tool and of its progress
//! dashboard: configuration rules, worker-pool sizing, job planning,
//! progress tracking, execution bookkeeping, and the text shown on screen.

pub mod config;
pub mod datetime;
pub mod db;
pub mod layout;
pub mod processing;
pub mod text;
pub mod thread_pool;
