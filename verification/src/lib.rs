//! Bookkeeping core of a 2D rectangle renderer: the instance store with its
//! dirty-state protocol, the frame decisions of the two render passes, the
//! two-phase block primitive and the pointer button state.
//!
//! Every scalar that the GPU reads as a 32-bit float is held here as its
//! IEEE-754 bit pattern in a `u32`.

pub mod block;
pub mod bytes;
pub mod composite;
pub mod dirtiness;
pub mod input_state;
pub mod pipeline;
pub mod rectangle;
pub mod renderer;
pub mod slots;
pub mod store;

pub use block::{Block, BlockStyle, Positioned, Transform, Unpositioned};
pub use input_state::{InputState, MouseButtonState};
pub use rectangle::Rectangle;
pub use renderer::Renderer;
pub use store::RectangleId;
