//! Domain entities.

pub mod template_contract;
pub mod block;
pub mod global_app_state;
pub mod graph_space;
pub mod user_settings;
pub mod annotation;
pub mod deep_link;
pub mod asset;
pub mod tag;
pub mod scheduled_task;
pub mod page;
pub mod journal;
pub mod file;
