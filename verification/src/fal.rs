//! Generated-video overlay support: prompt validation and generation status
//! of the video service, retry delays, the on-disk cache's naming and
//! clean-up rules, and the errors of video replacement.
pub mod cache;
pub mod client;
pub mod overlay;
pub mod prompt;
pub mod retry;
pub mod video_replacement;

pub use cache::{CacheEntry, VideoCache};
pub use client::{validate_prompt, FalError, GenerationStatus, QueueResponse};
pub use video_replacement::VideoReplacementError;
