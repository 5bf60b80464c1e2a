pub mod builder;
pub mod detector;
pub mod fetch;
pub mod image;
pub mod laws;
pub mod model;
pub mod poll;
pub mod publisher;
pub mod setup;
