//! A fake network camera: cycles a fixed list of still images into an
//! unbounded multipart byte stream, as `multipart/x-mixed-replace` clients
//! expect.
//!
//! The crate holds the pure pipeline: resolving a content type from a file
//! extension, framing one image as a multipart part, and the per-session
//! cursor that cycles through the configured image list. File reads, pacing
//! sleeps and the HTTP server live outside, fed by [`session::Session::step`].

pub mod content_type;
pub mod digits;
pub mod multipart;
pub mod session;

pub use content_type::content_type_for;
pub use multipart::{encode_part, stream_content_type, Frame};
pub use session::{pacing_interval_secs, CameraConfig, ReadOutcome, Session};
