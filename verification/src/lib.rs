//! The logic of a client that downloads the subtitles of a TV show from OpenSubtitles.com.
//!
//! One episode task runs per episode (`task`), and all their requests pass through one dispatcher
//! (`dispatch`), which makes them through the clients of the accounts that could log in (`login`).
//! Neither does any input or output: they tell what to do next, and are told what came of it.

pub mod channel;
pub mod config;
pub mod dispatch;
pub mod download;
pub mod episode;
pub mod failure;
pub mod header;
pub mod login;
pub mod output;
pub mod request;
pub mod search;
pub mod status;
pub mod task;
pub mod text;
pub mod url;

pub use crate::config::{ClientConfig, Config, EpisodeConfig, EpisodeSeq};
pub use crate::download::DownloadResponse;
pub use crate::login::{LoginRequestBody, LoginResponse, MessageResponse};
pub use crate::request::{token_0, TaskIndex, TokenIndex};
pub use crate::search::{
    FileMatchResponse, SearchResultsResponse, SubtitleMatchAttributesResponse,
    SubtitleMatchResponse,
};
pub use crate::status::HttpStatus;
