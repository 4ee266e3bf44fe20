use vstd::prelude::*;

verus! {

/// Floats of position per vertex (x, y).
pub const POSITION_COMPONENTS: u32 = 2;

/// Floats of color per vertex (r, g, b, a).
pub const COLOR_COMPONENTS: u32 = 4;

/// Bytes in one 32-bit float.
pub const FLOAT_BYTES: u32 = 4;

/// How a sequence of vertex references is read as triangles.
#[derive(Clone, Copy, Debug, PartialEq, Eq, Structural)]
pub enum Topology {
    /// Each three references in turn make a triangle.
    Triangles,
    /// The first reference is shared; each following pair makes a triangle
    /// with it.
    TriangleFan,
}

/// Where one vertex attribute lies in the interleaved vertex buffer.
#[derive(Clone, Copy, Debug, PartialEq, Eq, Structural)]
pub struct AttributeLayout {
    pub location: u32,
    pub components: u32,
    pub stride_bytes: u32,
    pub offset_bytes: u32,
}

/// Bytes between the starts of two consecutive vertices: position, then
/// color, as floats.
pub fn vertex_stride_bytes() -> (r: u32)
    ensures
        r == (POSITION_COMPONENTS + COLOR_COMPONENTS) * FLOAT_BYTES,
        r == 24,
{
    (POSITION_COMPONENTS + COLOR_COMPONENTS) * FLOAT_BYTES
}

/// The position attribute at `location`: two floats at the start of each
/// vertex.
pub fn position_attribute(location: u32) -> (r: AttributeLayout)
    ensures
        r == (AttributeLayout { location, components: 2, stride_bytes: 24, offset_bytes: 0 }),
{
    AttributeLayout {
        location,
        components: POSITION_COMPONENTS,
        stride_bytes: vertex_stride_bytes(),
        offset_bytes: 0,
    }
}

/// The color attribute at `location`: four floats after the position.
pub fn color_attribute(location: u32) -> (r: AttributeLayout)
    ensures
        r == (AttributeLayout { location, components: 4, stride_bytes: 24, offset_bytes: 8 }),
{
    AttributeLayout {
        location,
        components: COLOR_COMPONENTS,
        stride_bytes: vertex_stride_bytes(),
        offset_bytes: POSITION_COMPONENTS * FLOAT_BYTES,
    }
}

/// Every reference names one of the `vertex_count` vertices.
pub open spec fn indices_in_range(indices: Seq<u32>, vertex_count: u32) -> bool {
    forall|i: int| 0 <= i < indices.len() ==> indices[i] < vertex_count
}

/// The triangles of a fan over the references `e`.
pub open spec fn fan_triangles(e: Seq<u32>) -> Seq<(u32, u32, u32)> {
    if e.len() < 3 {
        Seq::empty()
    } else {
        Seq::new((e.len() - 2) as nat, |k: int| (e[0], e[k + 1], e[k + 2]))
    }
}

/// The triangles of a list of references read three at a time; a partial
/// triple at the end makes none.
pub open spec fn list_triangles(e: Seq<u32>) -> Seq<(u32, u32, u32)> {
    Seq::new(e.len() / 3, |k: int| (e[3 * k], e[3 * k + 1], e[3 * k + 2]))
}

/// The triangles that `topology` makes of the references `e`.
pub open spec fn triangles_of(topology: Topology, e: Seq<u32>) -> Seq<(u32, u32, u32)> {
    match topology {
        Topology::Triangles => list_triangles(e),
        Topology::TriangleFan => fan_triangles(e),
    }
}

/// The references of the hexagon fan: the center (vertex 6), then the six
/// rim vertices in order, closing back on the first.
pub open spec fn hexagon_fan_indices() -> Seq<u32> {
    seq![6, 0, 1, 2, 3, 4, 5, 0]
}

/// Why a geometry was refused.
#[derive(Clone, Copy, Debug, PartialEq, Eq, Structural)]
pub enum GeometryError {
    /// The reference at `position` names no vertex.
    IndexOutOfRange { position: u32, index: u32 },
    /// More references than a draw call can count.
    TooManyIndices,
}

/// The static geometry of a scene: how many vertices it uploads, the
/// optional index buffer, and the topology it is drawn with.
#[derive(Debug)]
pub struct Geometry {
    pub vertex_count: u32,
    pub indices: Option<Vec<u32>>,
    pub topology: Topology,
}

/// One draw call: its topology, how many references it reads, and whether
/// they come from the index buffer.
#[derive(Clone, Copy, Debug, PartialEq, Eq, Structural)]
pub struct DrawCall {
    pub topology: Topology,
    pub count: u32,
    pub indexed: bool,
}

/// Position `p` holds the first reference that names no vertex.
pub open spec fn first_out_of_range(indices: Seq<u32>, vertex_count: u32, p: int) -> bool {
    &&& 0 <= p < indices.len()
    &&& indices[p] >= vertex_count
    &&& indices_in_range(indices.take(p), vertex_count)
}

/// Finds the first reference that names no vertex.
fn first_out_of_range_at(ix: &Vec<u32>, vertex_count: u32) -> (r: Option<usize>)
    ensures
        r is None <==> indices_in_range(ix@, vertex_count),
        r matches Some(p) ==> first_out_of_range(ix@, vertex_count, p as int),
{
    let mut i: usize = 0;
    while i < ix.len()
        invariant
            0 <= i <= ix@.len(),
            indices_in_range(ix@.take(i as int), vertex_count),
        decreases ix@.len() - i,
    {
        if ix[i] >= vertex_count {
            return Some(i);
        }
        proof {
            assert forall|j: int| 0 <= j < i + 1 implies #[trigger] ix@.take(i + 1)[j]
                < vertex_count by {
                if j < i {
                    assert(ix@.take(i + 1)[j] == ix@.take(i as int)[j]);
                }
            }
        }
        i = i + 1;
    }
    proof {
        assert(ix@.take(i as int) =~= ix@);
    }
    None
}

impl Geometry {
    /// References fit a draw call and name existing vertices.
    pub open spec fn wf(&self) -> bool {
        match self.indices {
            Some(ix) => ix@.len() <= u32::MAX && indices_in_range(ix@, self.vertex_count),
            None => true,
        }
    }

    /// The vertex references that a draw reads, in order.
    pub open spec fn elements(&self) -> Seq<u32> {
        match self.indices {
            Some(ix) => ix@,
            None => Seq::new(self.vertex_count as nat, |i: int| i as u32),
        }
    }

    /// Checks the references against the vertex count.
    pub fn new(vertex_count: u32, indices: Option<Vec<u32>>, topology: Topology) -> (r: Result<
        Geometry,
        GeometryError,
    >)
        ensures
            match indices {
                None => r == Ok::<Geometry, GeometryError>(
                    Geometry { vertex_count, indices: None, topology },
                ),
                Some(ix) => {
                    if ix@.len() > u32::MAX {
                        r == Err::<Geometry, GeometryError>(GeometryError::TooManyIndices)
                    } else if indices_in_range(ix@, vertex_count) {
                        r is Ok && r->Ok_0.vertex_count == vertex_count && r->Ok_0.indices
                            == Some(ix) && r->Ok_0.topology == topology
                    } else {
                        r matches Err(GeometryError::IndexOutOfRange { position, index })
                            && first_out_of_range(ix@, vertex_count, position as int) && index
                            == ix@[position as int]
                    }
                },
            },
            r matches Ok(g) ==> g.wf(),
    {
        match indices {
            None => Ok(Geometry { vertex_count, indices: None, topology }),
            Some(ix) => {
                if ix.len() > u32::MAX as usize {
                    return Err(GeometryError::TooManyIndices);
                }
                match first_out_of_range_at(&ix, vertex_count) {
                    Some(p) => {
                        let position = p as u32;
                        Err(GeometryError::IndexOutOfRange { position, index: ix[p] })
                    },
                    None => Ok(Geometry { vertex_count, indices: Some(ix), topology }),
                }
            },
        }
    }

    /// The seven-vertex hexagon, drawn as a fan from its center.
    pub fn hexagon_fan() -> (r: Geometry)
        ensures
            r.wf(),
            r.vertex_count == 7,
            r.elements() == hexagon_fan_indices(),
            r.indices is Some,
            r.topology == Topology::TriangleFan,
    {
        let ix: Vec<u32> = vec![6, 0, 1, 2, 3, 4, 5, 0];
        proof {
            assert(ix@ =~= hexagon_fan_indices());
        }
        Geometry { vertex_count: 7, indices: Some(ix), topology: Topology::TriangleFan }
    }

    /// A single triangle of three vertices, drawn without an index buffer.
    pub fn triangle() -> (r: Geometry)
        ensures
            r.wf(),
            r == (Geometry { vertex_count: 3, indices: None, topology: Topology::Triangles }),
    {
        Geometry { vertex_count: 3, indices: None, topology: Topology::Triangles }
    }

    /// The draw call for this geometry.
    pub fn draw_call(&self) -> (r: DrawCall)
        requires
            self.wf(),
        ensures
            r.topology == self.topology,
            r.count == self.elements().len(),
            r.indexed == self.indices is Some,
    {
        match &self.indices {
            Some(ix) => DrawCall { topology: self.topology, count: ix.len() as u32, indexed: true },
            None => DrawCall { topology: self.topology, count: self.vertex_count, indexed: false },
        }
    }

    /// The triangles that a draw of this geometry makes, each as three
    /// vertex references.
    pub fn triangles(&self) -> (r: Vec<(u32, u32, u32)>)
        requires
            self.wf(),
        ensures
            r@ == triangles_of(self.topology, self.elements()),
    {
        let e = self.element_list();
        expand(self.topology, &e)
    }

    /// The references that a draw reads, written out.
    fn element_list(&self) -> (r: Vec<u32>)
        ensures
            r@ == self.elements(),
    {
        match &self.indices {
            Some(ix) => ix.clone(),
            None => {
                let mut r: Vec<u32> = Vec::new();
                let mut i: u32 = 0;
                while i < self.vertex_count
                    invariant
                        i <= self.vertex_count,
                        r@ =~= Seq::new(i as nat, |k: int| k as u32),
                    decreases self.vertex_count - i,
                {
                    r.push(i);
                    i = i + 1;
                }
                proof {
                    assert(r@ =~= self.elements());
                }
                r
            },
        }
    }
}

/// Expands references into triangles as `topology` reads them.
pub fn expand(topology: Topology, e: &Vec<u32>) -> (r: Vec<(u32, u32, u32)>)
    ensures
        r@ == triangles_of(topology, e@),
{
    let mut r: Vec<(u32, u32, u32)> = Vec::new();
    match topology {
        Topology::TriangleFan => {
            if e.len() < 3 {
                proof {
                    assert(r@ =~= fan_triangles(e@));
                }
                return r;
            }
            let len = e.len();
            let n = len - 2;
            let mut k: usize = 0;
            while k < n
                invariant
                    len == e@.len(),
                    e@.len() >= 3,
                    n == e@.len() - 2,
                    k <= n,
                    r@ =~= Seq::new(k as nat, |j: int| (e@[0], e@[j + 1], e@[j + 2])),
                decreases n - k,
            {
                assert(k + 2 < e@.len());
                r.push((e[0], e[k + 1], e[k + 2]));
                k = k + 1;
            }
            proof {
                assert(r@ =~= fan_triangles(e@));
            }
            r
        },
        Topology::Triangles => {
            let len = e.len();
            let n = len / 3;
            let mut k: usize = 0;
            while k < n
                invariant
                    len == e@.len(),
                    n == e@.len() / 3,
                    k <= n,
                    r@ =~= Seq::new(k as nat, |j: int| (e@[3 * j], e@[3 * j + 1], e@[3 * j + 2])),
                decreases n - k,
            {
                assert(3 * k + 2 < e@.len()) by (nonlinear_arith)
                    requires
                        k < n,
                        n == e@.len() / 3,
                ;
                r.push((e[3 * k], e[3 * k + 1], e[3 * k + 2]));
                k = k + 1;
            }
            proof {
                assert(r@ =~= list_triangles(e@));
            }
            r
        },
    }
}

/// The hexagon fan makes exactly six triangles, and every vertex they use
/// is one of the seven vertices 0 to 6.
pub proof fn lemma_hexagon_fan_triangles()
    ensures
        fan_triangles(hexagon_fan_indices()).len() == 6,
        indices_in_range(hexagon_fan_indices(), 7),
        forall|k: int|
            0 <= k < 6 ==> {
                let t = #[trigger] fan_triangles(hexagon_fan_indices())[k];
                t.0 <= 6 && t.1 <= 6 && t.2 <= 6
            },
{
    let e = hexagon_fan_indices();
    assert(e.len() == 8);
    assert(indices_in_range(e, 7)) by {
        assert forall|i: int| 0 <= i < e.len() implies e[i] < 7 by {
            assert(e[0] == 6 && e[1] == 0 && e[2] == 1 && e[3] == 2 && e[4] == 3 && e[5] == 4
                && e[6] == 5 && e[7] == 0);
        }
    }
}

} // verus!
