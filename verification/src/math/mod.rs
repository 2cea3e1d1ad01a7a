pub mod random;
pub mod scalar_ops;
pub mod vec;
pub mod vec_ops;
