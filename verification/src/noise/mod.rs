pub mod perlin;
