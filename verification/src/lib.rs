pub mod app;
pub mod app_laws;
pub mod decimal;
pub mod devices;
pub mod format;
pub mod frame;
pub mod paths;
pub mod settings;
