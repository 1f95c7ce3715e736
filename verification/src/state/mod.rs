pub mod config;
pub mod will;

pub use config::Config;
pub use will::{Will, WillEvent, WillStatus};
