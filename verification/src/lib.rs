//! Core of a batching HTTP client: session configuration, request planning,
//! wave-based batch dispatch, and a response envelope that resolves its
//! encoding lazily, decompresses on demand and decodes JSON.
//!
//! The crate performs no network or file I/O itself. A driver performs each
//! planned exchange and reports the outcome back; everything that is decided
//! between two exchanges is decided, and verified, here.
//!
//! A single request goes in two steps. A verb of a session, such as
//! [`ThreadSessionRs::get`], hands out a [`plan::RequestPlan`]: the request
//! and the configuration in force. The driver performs it and hands what
//! came of it to `complete`, which counts a success and wraps the response
//! in an [`HttpResponse`].
//!
//! A batch goes through a [`dispatch::Dispatch`]. A batch verb of a session
//! starts it; the driver asks it for one wave after the other with
//! `next_wave`, performs the requests of a wave in any order and hands each
//! outcome to `report`; `finish_batch` counts the requests and hands out
//! the result map and the warnings. A batch runs under the configuration
//! that was in force when it started: a later change of the session does
//! not reach it.
//!
//! Floating-point values are held by the bits of their IEEE 754 binary64
//! form: the timeout of a session, in seconds, and the floats of a JSON
//! document.

pub mod strmap;
pub mod text;
pub mod charset;
pub mod codec;
pub mod config;
pub mod dispatch;
pub mod error;
pub mod headers;
pub mod json;
pub mod laws;
pub mod method;
pub mod plan;
pub mod response;
pub mod session;
pub mod thread_session;
pub mod async_session;

pub use crate::async_session::AsyncSessionRs;
pub use crate::response::HttpResponse;
pub use crate::thread_session::ThreadSessionRs;
