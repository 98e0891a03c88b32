pub mod amm;
pub mod clmm;
pub mod cpmm;
