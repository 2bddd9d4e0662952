pub mod chain;
pub mod factorial;
pub mod generator;
pub mod pairing;
pub mod rle;
