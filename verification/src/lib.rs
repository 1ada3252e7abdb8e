pub mod agent;
pub mod classifier;
pub mod confidence;
pub mod db;
pub mod flows;
pub mod history;
pub mod path;
pub mod placement;
pub mod staging;
pub mod store;
pub mod text;
pub mod transfer;
pub mod unicode;
pub mod watcher;
