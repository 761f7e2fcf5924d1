//! A friendly interface to a host's realtime audio queue services.
//!
//! The library holds the buffer exchange engine as verified state: the
//! fixed pool of buffers, the queue of buffer identities that connects the
//! host's callback to the application, the guard protocol that hands a
//! buffer out and takes it back, and the translation of host status codes.
//! The host calls themselves are made by the caller, who hands their
//! outcomes to the engine.

pub mod error;
pub mod sample_format;
pub mod audio_buffer;
pub mod audio_queue;
pub mod audio_unit;

pub use error::Error;
pub use sample_format::SampleFormat;
