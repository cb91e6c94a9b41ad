//! A typed, verified model of a small fantasy-console hardware interface:
//! a fixed-layout shared-memory state image made of bit-packed view types,
//! a 2-bits-per-pixel display buffer codec, encoders for the host's imported
//! drawing / audio / storage calls, and the two-phase setup / per-cycle
//! lifecycle protocol that hands user code confined borrows of the state.

pub mod color;
pub mod draw_colors;
pub mod flags;
pub mod framebuffer;
pub mod host;
pub mod input;
pub mod layout;
pub mod lifecycle;
pub mod state;
pub mod sound;

pub use color::Color;
pub use color::Palette;
pub use draw_colors::DrawColor;
pub use draw_colors::DrawColors;
pub use flags::Netplay;
pub use flags::SystemFlags;
pub use framebuffer::FrameBuffer;
pub use framebuffer::SpriteFlags;
pub use host::Disk;
pub use host::HostCall;
pub use host::trace;
pub use input::Gamepad;
pub use input::Mouse;
pub use lifecycle::Program;
pub use lifecycle::Runtime;
pub use sound::Channel;
pub use sound::DutyCycle;
pub use sound::Sound;
pub use sound::SoundSystem;
pub use state::Wasm4;
