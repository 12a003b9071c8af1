//! Handle-based bridge between a managed host runtime and three native
//! components: an OCR engine, a dictionary reader and a transliterator.
pub mod bridge;
pub mod handle;
pub mod marshal;
pub mod ocr;
