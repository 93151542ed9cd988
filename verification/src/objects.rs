pub mod layer;
pub mod line;
pub mod multiline;
pub mod point;
pub mod polygon;
pub mod text;

pub use self::layer::Layer;
pub use self::line::Line;
pub use self::multiline::Multiline;
pub use self::point::Point;
pub use self::polygon::Polygon;
pub use self::text::Text;
