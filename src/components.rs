pub mod fishtank;
pub mod project_editor;
pub mod settings;
pub mod software_list;
pub mod utils;
