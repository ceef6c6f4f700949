pub mod config;
pub mod cron;
pub mod discovery;
pub mod fetch;
pub mod link;
pub mod pagination;
pub mod posts;
pub mod retention;
pub mod sites;
pub mod text;
pub mod tracker;
