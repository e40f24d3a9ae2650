//! Runtime core of an interactive real-time application: a double-buffered
//! event queue and a fixed-timestep engine loop.
pub mod buffer;
pub mod clock;
pub mod engine;
pub mod event;
pub mod layer;
pub mod platform;
pub mod repo;
pub mod window;

pub use event::Event;
pub use repo::EventRepository;
