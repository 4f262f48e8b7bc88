//! The state machine of a four-function calculator with one memory register.

pub mod laws;
pub mod number;
pub mod operation;
pub mod state;
mod text;

pub use number::Number;
pub use operation::Operation;
pub use state::{CalculatorState, StateView};
