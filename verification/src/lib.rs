//! A verified model of a GDI-style rendering and input backend for an
//! immediate-mode GUI: it translates window messages into logical input
//! events, interprets a per-frame stream of abstract draw commands into
//! concrete native drawing operations under a scissor/clip regime, keeps a
//! pixel-exact model of the off-screen canvas for opaque rectangle fills,
//! and manages font, image and canvas resources with explicit lifetimes.

pub mod canvas;
pub mod color;
pub mod command;
pub mod drawer;
pub mod geom;
pub mod image;
pub mod input;
pub mod lower;
pub mod ops;
pub mod wide;

pub use canvas::Canvas;
pub use color::convert_color;
pub use color::Color;
pub use command::DrawCommand;
pub use command::Point;
pub use drawer::text_width_outcome;
pub use drawer::Drawer;
pub use drawer::FontSlot;
pub use drawer::ImageSlot;
pub use geom::ClipRect;
pub use input::translate_event;
pub use input::Key;
pub use input::MouseButton;
pub use input::Response;
pub use ops::GdiOp;
pub use wide::clipboard_copy;
pub use wide::clipboard_paste;
pub use wide::decode_wide;
pub use wide::encode_wide;
