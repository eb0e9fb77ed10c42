//! Headless core of a small frame-driven 2D engine: input tracking, the
//! game-state manager, the frame loop and the per-frame command buffer.
//!
//! The crate owns every decision the engine makes; a backend performs the
//! window, GPU and filesystem work and feeds the results back in as plain
//! values. Numbers that are floating point on the GPU side travel through
//! this crate as IEEE-754 single-precision bit patterns (`u32`).

pub mod command_buffer;
pub mod game_loop;
pub mod game_state;
pub mod lookup;
pub mod png_layout;
pub mod shader_program;
pub mod shapes;
pub mod state_table;
pub mod texture;
pub mod window;

pub use command_buffer::{
    Blend, BlendMode, BlendingFunction, Color, Command, CommandBuffer, CommandBufferView,
    CommandView, LinearBlendingFactor, Matrix4, Output, RenderTarget, Sampler,
};
pub use game_loop::{calculate_delta_time, delta_between, DeltaTime, FrameClock, GameLoop};
pub use game_state::{GameState, GameStateManager, ManagerModel, StateCall};
pub use shader_program::{ShaderProgram, ShaderView, WatchEvent, WatchState};
pub use shapes::{Mesh, Vertex2D};
pub use state_table::StateTable;
pub use texture::{DecodedImage, SamplerFilter, Texture2D, TextureView};
pub use window::{
    KeyState, KeyboardInput, MouseButton, MouseEvent, MouseState, Pointer, ScreenPos, Window,
    WindowEvent,
};
