//! What the terminal front end keeps and computes apart from drawing.

pub mod components;
pub mod route_main;
pub mod routes;
pub mod utils;

pub use self::components::ActiveWindowInfo;
pub use self::route_main::RouteMain;
pub use self::routes::{Route, Router, Routes};
pub use self::utils::{cow, DisplayArchetype};
