//! Card game data model, rendering model, load-state machine and request
//! routing for a small client/server card table.

pub mod card;
pub mod decimal;
pub mod hand;
pub mod load;
pub mod route;
pub mod server;
pub mod table;
pub mod view;
