pub mod address;
pub mod amount;
pub mod serc20;
pub mod table;
pub mod token;
