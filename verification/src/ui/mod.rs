pub mod action;
pub mod command;
pub mod def;
pub mod property_box;
pub mod property_list;
pub mod tree;
