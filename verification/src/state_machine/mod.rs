pub mod types;
pub mod machine;
