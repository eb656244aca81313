pub mod clock;
pub mod creature;
pub mod display;
pub mod model;
pub mod palette;
pub mod service;
pub mod setup;
pub mod sprite;
pub mod store;
pub mod text;
pub mod watch;
