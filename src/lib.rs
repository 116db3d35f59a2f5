pub mod buffer;
pub mod builder;
pub mod level;
pub mod logger;
pub mod record;
pub mod registry;
pub mod render;
