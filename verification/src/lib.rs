pub mod alert_laws;
pub mod checks;
pub mod clock;
pub mod crypto;
pub mod feishu_client;
pub mod messages;
pub mod monitor;
pub mod settings;
pub mod text;
