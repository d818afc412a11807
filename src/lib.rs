//! Building blocks of a Monte-Carlo sphere ray tracer that carry no
//! floating-point arithmetic: the marker types that tell points from colors,
//! the ordered clamp used by tone mapping, the choice of the root at which a
//! ray meets a surface and of the nearest surface a ray meets, the settings of a render, and the traversal of the
//! image that fixes where each pixel lands in the output stream and which
//! random stream renders each scanline.
pub mod order;
pub mod scan;
pub mod settings;
pub mod vec3;

pub use order::{clamp, closest_hit, select_root};
pub use scan::{output_position, row_seed, scanline_order};
pub use settings::RenderSettings;
pub use vec3::{Color, ExpressibleInThree, Point3};
