//! Core logic of an unofficial QQ client: message rendering, contact and
//! chat bookkeeping, login decisions and the persisted account settings.

pub mod decimal;
pub mod strings;
pub mod message;
pub mod store;
pub mod chatroom;
pub mod chats;
pub mod main_page;
pub mod account;
pub mod login;
pub mod qr;
pub mod avatar;
pub mod contacts;
pub mod handler;
pub mod widgets;
