pub mod state;
pub mod stake;
pub mod unstake;
pub mod laws;
pub mod custody;
