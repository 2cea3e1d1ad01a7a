pub mod arch_simd;
