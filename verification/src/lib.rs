//! Persistence contracts for a video-upload manager.
//!
//! Two kinds of rows are kept in a backing store: streamer upload templates
//! ([`StudioEntity`]), which are reusable presets of publish metadata, and
//! upload records ([`UploadRecords`]), which track single upload attempts.
//! A template is turned into the request that the upload pipeline consumes by
//! [`StudioEntity::into_dto`].
//!
//! [`UploadStreamersRepository`] and [`UploadRecordsRepository`] say what a
//! store does with these rows, over the model in [`rows`]. [`MemoryStreamers`]
//! and [`MemoryRecords`] are such stores, kept in memory.

pub mod entity;
pub mod error;
pub mod memory;
pub mod records;
pub mod rows;
pub mod streamers;
pub mod studio;

pub use entity::{StudioEntity, StudioEntityView, UploadRecords, UploadRecordsView};
pub use error::RepositoryError;
pub use memory::{MemoryRecords, MemoryStreamers};
pub use records::UploadRecordsRepository;
pub use streamers::UploadStreamersRepository;
pub use studio::{Credit, CreditView, Studio, StudioView, Subtitle, SubtitleView, Video, VideoView};
