pub mod balance;
pub mod system;
