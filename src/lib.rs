//! Typed client library for the HackMD note-hosting API: error taxonomy,
//! response classification, retry policy and request payloads.
pub mod client;
pub mod error;
pub mod response;
pub mod retry;
pub mod text;
pub mod types;

pub use error::{
    ApiError, HackMDError, HttpResponseError, InternalServerError, MissingRequiredArgument,
    Result, TooManyRequestsError,
};
pub use client::{ApiClient, ApiClientOptions, RetryOptions};
pub use types::{
    CommentPermissionType, CreateNoteOptions, Note, NotePermissionRole, NotePublishType,
    SimpleUserProfile, SingleNote, Team, TeamVisibilityType, UpdateNoteOptions, User,
};
