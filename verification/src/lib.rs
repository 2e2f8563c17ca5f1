//! Verified core of the tchatche.rs web client: the decisions that the
//! browser components, workers and derive macros make, stated over plain
//! values and proved with Verus.

pub mod text;
pub mod api_macro;
pub mod bus;
pub mod ws;
pub mod chat;
pub mod router;
pub mod feed;
pub mod requester;
pub mod jwt;
pub mod i18n;
pub mod menus;
pub mod forms;
