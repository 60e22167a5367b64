pub mod builder;
pub mod composite;
pub mod interpret;
pub mod visitor;
