pub mod edge;
pub mod focus;
pub mod geometry;
pub mod graph;
pub mod model;
pub mod node;
pub mod store;

pub use edge::Connection;
pub use edge::Edge;
pub use edge::Link;
pub use focus::FocusState;
pub use geometry::FracPoint;
pub use geometry::Point;
pub use geometry::PointerEvent;
pub use graph::CurrentlyDragging;
pub use graph::CurrentlyDraggingProps;
pub use graph::DraggingIndex;
pub use graph::NodeDragInfo;
pub use graph::VisualGraph;
pub use graph::VisualGraphInner;
pub use node::Node;
pub use node::NodeId;
pub use node::NodeRecord;
pub use node::Port;
