pub mod linkedin;
pub mod sales;
