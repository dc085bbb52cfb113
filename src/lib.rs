//! A 2D quad renderer's core: colors, CPU-side canvases, integer geometry,
//! textures that share regions of one image, a camera's projection, and the
//! batching of quads by texture into draw calls over a shared index buffer.
//!
//! The graphics backend, the window, and everything computed in floating point
//! (transforms, vertices) stay with the caller; the types here carry the names of
//! backend objects and plan the work done on them.

pub mod camera;
pub mod canvas;
pub mod color;
pub mod event;
pub mod geo;
pub mod glenum;
pub mod ibo;
pub mod keys;
pub mod quad;
pub mod shader;
pub mod tex2d;
pub mod texture;
pub mod vao;
pub mod vbo;
pub mod vertex;
pub mod window;

pub use camera::{Camera, Ortho, StretchMode};
pub use canvas::Canvas;
pub use color::Color;
pub use event::{Event, EventHandler};
pub use geo::{PointAny, PointU32, RectAny, RectU32, SizeAny, SizeU32};
pub use ibo::IndexBuffer;
pub use keys::{Key, Modifiers};
pub use quad::{DrawCall, Frame, QRBatch, Quad, QuadRenderer, QuadRendererType, QuadSize};
pub use shader::{FragmentShader, Program, Shader, VertexShader};
pub use tex2d::{TexFilter, TexFilters, Texture2D};
pub use texture::{Texture, UvRect};
pub use vao::{AttribPointer, PrimitiveType, VertexArray};
pub use vbo::{BufferUsage, UploadKind, VertexBuffer};
pub use vertex::{ColorVertex, Vertex, VertexAttrib};
pub use window::{VSync, VideoMode, WindowBorder, WindowMode};
