//! Resolution of a raw address in an analysed binary into its segment,
//! function and nearest symbol, and decoding of the auto-analysis state.
pub mod hex;
pub mod types;
pub mod address;
pub mod analysis;
pub mod laws;
