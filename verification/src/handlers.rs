pub mod error_test;
pub mod random_number;
