//! Barcode classification, rendering and page layout for a printable
//! catalogue of product barcodes.
pub mod batch;
pub mod code;
pub mod layout;
pub mod product;
pub mod render;
