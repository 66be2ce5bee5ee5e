//! Ingestion and derivation rules for uploaded images: field ordering,
//! file naming, crop geometry and the sizes of the derived artifacts.

pub mod demux;
pub mod derivation;
pub mod error;
pub mod files;
pub mod geometry;
pub mod ident;
pub mod imaging;
pub mod metadata;
pub mod naming;
pub mod publish;
pub mod raster;
pub mod store;
pub mod upload;
