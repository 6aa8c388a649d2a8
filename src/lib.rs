pub mod checksum;
pub mod download;
pub mod error;
pub mod manifest;
pub mod pipeline;
pub mod registry;
pub mod scaffold;
pub mod scan;
pub mod text;
