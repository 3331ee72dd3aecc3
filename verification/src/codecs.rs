pub mod base58;
pub mod bincode;
pub mod deflate;
pub mod gzip;
pub mod lzma;
pub mod lzma2;
pub mod xz;
pub mod zlib;
