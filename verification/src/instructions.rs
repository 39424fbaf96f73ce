pub mod redeem;
pub mod stake;
pub mod unstake;
