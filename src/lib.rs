//! Control logic of a 2D ecosystem simulation: the simulation's run states
//! with the pause toggle, and the view settings that keyboard shortcuts
//! switch (camera follow modes, gizmos, plots).
pub mod settings;
pub mod sim_state;

pub use settings::{camera_clamp_active, handle_keyboard_input, KeyPresses, Settings};
pub use sim_state::{pause_simulation, SimState};
