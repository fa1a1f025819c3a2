//! Baidu NetDisk SDK: the request building, response interpretation, token
//! lifecycle, chunk planning and error classification of the Baidu NetDisk
//! open platform API, with their contracts proved by Verus.
pub mod text;
pub mod errors;
pub mod encoding;
pub mod auth;
pub mod file;
pub mod download;
pub mod upload;
pub mod playlist;
pub mod quota;
pub mod user;
pub mod http;
pub mod client;
