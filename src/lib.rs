pub mod codec;
pub mod frame;
pub mod proto;
pub mod laws;
pub mod state;

pub use state::State;
