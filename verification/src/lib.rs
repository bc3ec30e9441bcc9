//! A verified client library for the gofile.io file-hosting service.
//!
//! The library holds the logic of the client: URL parsing, the metadata
//! model, the download pipeline (skip / conflict / verify / promote) with
//! streaming MD5 verification, upload progress accounting, and credential
//! policy. Network and filesystem work is left to the surrounding
//! application, which drives the verified state machines in here.

pub mod client;
pub mod config;
pub mod digest;
pub mod download;
pub mod error;
pub mod hexcode;
pub mod model;
pub mod strutil;
pub mod upload;
pub mod urlparse;

pub use client::Client;
pub use error::Error;
pub use model::Page;
pub use model::PageChild;
pub use model::UploadInfo;
