use crate::geometry::{hexagon_fan_indices, DrawCall, Geometry, Topology};
use vstd::prelude::*;

verus! {

/// Vertex stage: places each vertex by the world transform and passes its
/// color on.
pub const VERTEX_SHADER_SOURCE: &'static str = "#version 300 es
in vec4 a_position;
in vec4 a_color;

uniform mat4 world;

out vec4 color;

void main() {
    gl_Position = world * a_position;
    color = a_color;
}";

/// Fragment stage: paints the interpolated vertex color.
pub const FRAGMENT_SHADER_SOURCE: &'static str = "#version 300 es
precision mediump float;

in vec4 color;
out vec4 outColor;

void main() {
    outColor = color;
}";

/// Name of the position attribute in the vertex stage.
pub const POSITION_ATTRIBUTE: &'static str = "a_position";

/// Name of the color attribute in the vertex stage.
pub const COLOR_ATTRIBUTE: &'static str = "a_color";

/// Name of the uniform that holds the world transform.
pub const WORLD_UNIFORM: &'static str = "world";

/// One configuration of the scene: its geometry, and whether a frame loop
/// keeps redrawing it after the first draw.
#[derive(Debug)]
pub struct Scene {
    pub geometry: Geometry,
    pub loop_enabled: bool,
}

impl Scene {
    pub open spec fn wf(&self) -> bool {
        self.geometry.wf()
    }

    /// The hexagon fan, spun by the frame loop.
    pub fn animated_hexagon() -> (r: Scene)
        ensures
            r.wf(),
            r.loop_enabled,
            r.geometry.vertex_count == 7,
            r.geometry.elements() == hexagon_fan_indices(),
            r.geometry.indices is Some,
            r.geometry.topology == Topology::TriangleFan,
    {
        Scene { geometry: Geometry::hexagon_fan(), loop_enabled: true }
    }

    /// The single triangle, drawn once.
    pub fn static_triangle() -> (r: Scene)
        ensures
            r.wf(),
            !r.loop_enabled,
            r.geometry == (Geometry { vertex_count: 3, indices: None, topology: Topology::Triangles }),
    {
        Scene { geometry: Geometry::triangle(), loop_enabled: false }
    }

    /// The draw call that each frame issues.
    pub fn draw_call(&self) -> (r: DrawCall)
        requires
            self.wf(),
        ensures
            r.topology == self.geometry.topology,
            r.count == self.geometry.elements().len(),
            r.indexed == self.geometry.indices is Some,
    {
        self.geometry.draw_call()
    }
}

} // verus!
