pub mod doc;
pub mod text;
pub mod protocol;
pub mod node;
pub mod error;
pub mod codec;
pub mod uri_parser;
pub mod singbox_parser;
pub mod clash_parser;
pub mod parser;
pub mod subscription;
pub mod settings;
pub mod app_state;
pub mod import;
pub mod config;
pub mod speed;
pub mod system_proxy;
pub mod downloader;
pub mod new_node;
pub mod config_roundtrip;
pub mod ui_state;
