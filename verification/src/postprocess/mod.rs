pub mod hdr;
