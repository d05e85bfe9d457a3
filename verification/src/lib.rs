pub mod app_routes;
pub mod bus;
pub mod data_handle;
pub mod event_handler;
pub mod laws;
pub mod message;
pub mod poca;
pub mod serve;
pub mod store;
mod strings;
pub mod synchronizable;
pub mod trace;
pub mod ws_handler;

pub use app_routes::{generate_app_routes, AppRoutes, RouteNode};
pub use data_handle::DataHandle;
pub use event_handler::EventHandler;
pub use message::{WSMessage, WSMessageType};
pub use poca::Poca;
