pub mod command;
pub mod errors;
pub mod events;
pub mod logger;
pub mod message;
pub mod random;
pub mod search;
pub mod stored;
