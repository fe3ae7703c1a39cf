//! Verified core of a small image hosting service: file-name rules,
//! storage paths, reply building, the upload decision protocol and the
//! download / preview protocol, including the ZIP archive assembly, and a
//! storage model with laws over successive requests.

pub mod naming;
pub mod paths;
pub mod responses;
pub mod upload;
pub mod archive;
pub mod download;
pub mod storage;
