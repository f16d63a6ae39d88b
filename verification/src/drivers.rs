pub mod error;
pub mod read_ext;
pub mod handles;
pub mod s3;
pub mod memory;
pub mod registry;
pub mod tcp;
pub mod http;
pub mod ipfs;
pub mod http_raw;
pub mod cgi;
pub mod socket;
