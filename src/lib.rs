// A real-time plotting component for multi-channel signal streams: per-plot
// viewport state with drag-to-pan and scroll-to-zoom, the data-to-screen
// transform, "nice" tick generation, and the choice and layout of channels.
// Values are integers: data in the host's units, screen positions in pixels.

pub mod arith;
pub mod chaninfo;
pub mod display;
pub mod geometry;
pub mod gesture;
pub mod plot;
pub mod registry;
pub mod ticks;
pub mod transform;
pub mod viewport;
