pub mod hello;
pub mod module_five;
pub mod pages;
pub mod settings_page;
pub mod upload;
