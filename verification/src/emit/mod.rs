pub mod grayscale;
