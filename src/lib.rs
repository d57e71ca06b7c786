pub mod models;
pub mod send_grid_sdk;
pub mod lemmas;
