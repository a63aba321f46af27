//! Request handling, content negotiation and menu layout of the SideX
//! desktop shell, with their contracts proved by Verus.

pub mod text;
pub mod percent;
pub mod mime;
pub mod request;
pub mod serve;
pub mod http;
pub mod server;
pub mod menu;
