//! A simulated robot controller that answers HSES requests from its state.

pub mod config;
pub mod handlers;
pub mod laws;
pub mod read_laws;
pub mod server;
pub mod state;

pub use handlers::{CommandHandler, CommandHandlerRegistry};
pub use state::{AlarmHistory, MockState, SelectedJobInfo};
pub use config::MockConfig;
