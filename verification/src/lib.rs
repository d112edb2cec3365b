//! A resumable, chunked, retrying download engine.
//!
//! The library holds the decisions of a downloader and leaves the doing to
//! its caller: it plans byte ranges, picks between one stream and several,
//! decides on resuming, runs the retry logic of each request, says how
//! chunks combine, and keeps the books of a batch. The caller sends the
//! requests, writes the files and sleeps.
//!
//! - [`chunk`], [`strategy`], [`fetch`], [`retry`], [`combine`] and
//!   [`download`] are the engine.
//! - [`headers`] and [`http`] build request headers and pick file names.
//! - [`cli`], [`config`], [`lazy_config`] and [`init`] hold the settings.
//! - [`error`] and [`output`] are the error type and the log records.
//! - [`fast_download`], [`minimal_http`], [`native_http`], [`simd_ops`],
//!   [`ultimate_fast`] and [`ultra_fast`] serve the fast path for simple
//!   downloads.
//! - [`file_utils`], [`text`] and [`digits`] are helpers.

pub mod chunk;
pub mod cli;
pub mod combine;
pub mod config;
pub mod digits;
pub mod download;
pub mod error;
pub mod fast_download;
pub mod fetch;
pub mod file_utils;
pub mod headers;
pub mod http;
pub mod init;
pub mod lazy_config;
pub mod minimal_http;
pub mod native_http;
pub mod output;
pub mod retry;
pub mod simd_ops;
pub mod strategy;
pub mod text;
pub mod ultimate_fast;
pub mod ultra_fast;
