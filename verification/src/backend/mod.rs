pub mod browser_detect;
pub mod external_links;
pub mod launch_options;
pub mod lifecycle;
pub mod paths;
pub mod pending_connect_store;
pub mod platform;
pub mod proxy;
pub mod relaunch_args;
pub mod settings_store;
