//! Meshes in the Wavefront text format: faces, groups, and the parser's
//! rules for the lines of a mesh file.

use vstd::prelude::*;
use vstd::string::StringExecFns;

use crate::objects::lexer::SLASH;
use crate::materials::material::{spec_diffuse_of, spec_materials, Material, MaterialView};
use crate::text::{
    copy_text, is_keyword, join, parse_usize, spec_ascii, spec_join, spec_parse_usize, spec_split,
    spec_split_whitespace, spec_views, split, split_whitespace, BLANK, HASH,
};
use crate::vulkan::vertex::{Vector3, Vertex};

verus! {

/// Encoding of the number one as a 32-bit IEEE 754 value.
pub const ONE_BITS: u32 = 0x3f80_0000;

/// Encoding of seven tenths as a 32-bit IEEE 754 value.
pub const SEVEN_TENTHS_BITS: u32 = 0x3f33_3333;

/// Fewest words of a line that declares a face: the keyword and three
/// corners.
pub const FACE_WORDS: usize = 4;

/// Fewest words of a line that declares a vertex or a normal: the keyword
/// and three coordinates.
pub const VECTOR_WORDS: usize = 4;

/// One corner of a face: indices, counted from 0, into the vertices,
/// texture coordinates and normals of the mesh.
#[derive(Debug, Clone, Copy, PartialEq, Eq, Structural)]
pub struct FaceVertex {
    pub vertex: usize,
    pub texture: Option<usize>,
    pub normal: Option<usize>,
}

/// A face: its corners in order.
pub type Face = Vec<FaceVertex>;

/// A named group of faces that share a material.
#[derive(Debug, Clone)]
pub struct Group {
    pub name: Vec<u8>,
    pub faces: Vec<Face>,
    /// Name of the material.
    pub material: Option<Vec<u8>>,
}

/// A mesh. Coordinates are kept as 32-bit IEEE 754 encodings.
#[derive(Debug, Clone)]
pub struct Object {
    pub groups: Vec<Group>,
    pub vertices: Vec<Vector3>,
    pub normals: Vec<Vector3>,
    pub center: Vector3,
    /// The materials of the libraries that the mesh file names, in the
    /// order in which they were read.
    pub materials: Vec<Material>,
}

/// What can go wrong while a mesh is read.
#[derive(Debug)]
pub enum ObjError {
    IoError(std::io::Error),
    ParseError(String),
    InvalidIndex,
}

impl From<std::io::Error> for ObjError {
    fn from(e: std::io::Error) -> (r: ObjError) {
        ObjError::IoError(e)
    }
}

impl vstd::std_specs::convert::FromSpecImpl<std::io::Error> for ObjError {
    open spec fn obeys_from_spec() -> bool {
        true
    }

    open spec fn from_spec(e: std::io::Error) -> ObjError {
        ObjError::IoError(e)
    }
}

/// A parser of the mesh file at `path`.
#[derive(Debug, Clone)]
pub struct ObjectParser {
    pub path: String,
    /// Directory of the mesh file, in which its material libraries are
    /// looked up.
    pub base_dir: String,
}

/// The three numbers of a vertex or normal line, as written.
#[derive(Debug, Clone)]
pub struct Coordinates {
    pub x: Vec<u8>,
    pub y: Vec<u8>,
    pub z: Vec<u8>,
}

/// A group as plain values.
pub struct GroupView {
    pub name: Seq<u8>,
    pub faces: Seq<Seq<FaceVertex>>,
    pub material: Option<Seq<u8>>,
}

/// The corners that a sequence of faces holds.
pub open spec fn spec_faces(faces: Seq<Face>) -> Seq<Seq<FaceVertex>> {
    Seq::new(faces.len(), |i: int| faces[i]@)
}

/// A name as plain values.
pub open spec fn spec_name(name: Option<Vec<u8>>) -> Option<Seq<u8>> {
    match name {
        Some(text) => Some(text@),
        None => None,
    }
}

impl View for Group {
    type V = GroupView;

    open spec fn view(&self) -> GroupView {
        GroupView {
            name: self.name@,
            faces: spec_faces(self.faces@),
            material: spec_name(self.material),
        }
    }
}

/// The groups that a sequence of groups holds, as plain values.
pub open spec fn spec_groups(groups: Seq<Group>) -> Seq<GroupView> {
    Seq::new(groups.len(), |i: int| groups[i]@)
}

/// Fan triangulation: a face of `n` corners, at least three, gives `n - 2`
/// triangles, which all start at the first corner and take the other
/// corners two by two, in order. A face of fewer corners gives none.
pub open spec fn spec_triangulate(face: Seq<FaceVertex>) -> Seq<Seq<FaceVertex>> {
    Seq::new(
        if face.len() >= 3 {
            (face.len() - 2) as nat
        } else {
            0
        },
        |i: int| seq![face[0], face[i + 1], face[i + 2]],
    )
}

/// A positive index of the file as an index counted from 0. The file's
/// index 0, which is none, counts as the first.
pub open spec fn spec_zero_based(index: usize) -> usize {
    if index == 0 {
        0usize
    } else {
        (index - 1) as usize
    }
}

/// The index at position `at` of a corner, if it is written there and is a
/// number.
pub open spec fn spec_optional_index(parts: Seq<Seq<u8>>, at: int) -> Option<usize> {
    if at < parts.len() && parts[at].len() > 0 {
        match spec_parse_usize(parts[at]) {
            Some(index) => Some(spec_zero_based(index)),
            None => None,
        }
    } else {
        None
    }
}

/// What is wrong with a corner.
pub enum CornerFault {
    /// The vertex index is not a number.
    NotANumber,
    /// An index points past the vertices or normals read so far.
    OutOfBounds,
}

/// What the text of one corner means, in a mesh with the given numbers of
/// vertices and normals. The text holds up to three indices, counted from 1
/// and separated by slashes: vertex, texture coordinate, normal. The vertex
/// index must be a number and point to a vertex. A texture or normal index
/// that is left out or is not a number counts as absent; a normal index that
/// is there must point to a normal.
pub open spec fn spec_corner(text: Seq<u8>, vertex_count: nat, normal_count: nat) -> Result<
    FaceVertex,
    CornerFault,
> {
    let parts = spec_split(text, SLASH);
    match spec_parse_usize(parts[0]) {
        None => Err(CornerFault::NotANumber),
        Some(index) => {
            let vertex = spec_zero_based(index);
            let texture = spec_optional_index(parts, 1);
            let normal = spec_optional_index(parts, 2);
            if vertex >= vertex_count {
                Err(CornerFault::OutOfBounds)
            } else if normal is Some && normal->0 >= normal_count {
                Err(CornerFault::OutOfBounds)
            } else {
                Ok(FaceVertex { vertex, texture, normal })
            }
        },
    }
}

/// Whether `error` is the error for a corner with the given fault.
pub open spec fn spec_reports(error: ObjError, fault: CornerFault) -> bool {
    match fault {
        CornerFault::NotANumber => error matches ObjError::ParseError(message) && message@
            == "Invalid vertex index"@,
        CornerFault::OutOfBounds => error is InvalidIndex,
    }
}

/// Whether `error` is the error for the corner `text`.
pub open spec fn spec_reports_corner(
    error: ObjError,
    text: Seq<u8>,
    vertex_count: nat,
    normal_count: nat,
) -> bool {
    match spec_corner(text, vertex_count, normal_count) {
        Ok(_) => false,
        Err(fault) => spec_reports(error, fault),
    }
}

/// Whether every text of `texts` is a good corner.
pub open spec fn spec_corners_ok(texts: Seq<Seq<u8>>, vertex_count: nat, normal_count: nat) -> bool {
    forall|i: int|
        0 <= i < texts.len() ==> (#[trigger] spec_corner(texts[i], vertex_count, normal_count)) is Ok
}

/// The corners that `texts` stand for.
pub open spec fn spec_corners(texts: Seq<Seq<u8>>, vertex_count: nat, normal_count: nat) -> Seq<
    FaceVertex,
> {
    Seq::new(texts.len(), |i: int| spec_corner(texts[i], vertex_count, normal_count)->Ok_0)
}

/// Whether the corner at `i` is the first that is wrong.
pub open spec fn is_first_bad_corner(
    texts: Seq<Seq<u8>>,
    vertex_count: nat,
    normal_count: nat,
    i: int,
) -> bool {
    &&& 0 <= i < texts.len()
    &&& spec_corner(texts[i], vertex_count, normal_count) is Err
    &&& forall|j: int|
        0 <= j < i ==> (#[trigger] spec_corner(texts[j], vertex_count, normal_count)) is Ok
}

/// The name that the words after the keyword spell: the words joined by
/// single blanks.
pub open spec fn spec_rest_of_line(parts: Seq<Seq<u8>>) -> Seq<u8> {
    spec_join(parts.skip(1), BLANK)
}

/// The normal of a vertex for which the file gives none: along the first
/// axis.
pub open spec fn spec_default_normal() -> Vector3 {
    Vector3 { x: ONE_BITS, y: 0, z: 0 }
}

/// The colour of a vertex whose material gives none: a light grey.
pub open spec fn spec_default_color() -> Vector3 {
    Vector3 { x: SEVEN_TENTHS_BITS, y: SEVEN_TENTHS_BITS, z: SEVEN_TENTHS_BITS }
}

/// The vertex indices of the corners of a face, in order.
pub open spec fn spec_face_indices(face: Seq<FaceVertex>) -> Seq<usize> {
    Seq::new(face.len(), |i: int| face[i].vertex)
}

/// The vertex indices of the corners of all the faces, face after face.
pub open spec fn spec_group_indices(faces: Seq<Seq<FaceVertex>>) -> Seq<usize>
    decreases faces.len(),
{
    if faces.len() == 0 {
        Seq::empty()
    } else {
        spec_group_indices(faces.drop_last()) + spec_face_indices(faces.last())
    }
}

/// The vertex indices of the corners of all the groups, group after group.
pub open spec fn spec_indices(groups: Seq<GroupView>) -> Seq<usize>
    decreases groups.len(),
{
    if groups.len() == 0 {
        Seq::empty()
    } else {
        spec_indices(groups.drop_last()) + spec_group_indices(groups.last().faces)
    }
}

/// The colour of the faces of a group with the given material: the diffuse
/// colour of the material, or the default if the group has no material, the
/// material is not known, or it has no diffuse colour.
pub open spec fn spec_base_color(materials: Seq<MaterialView>, material: Option<Seq<u8>>)
    -> Vector3 {
    match material {
        Some(name) => match spec_diffuse_of(materials, name) {
            Some(color) => color,
            None => spec_default_color(),
        },
        None => spec_default_color(),
    }
}

/// Whether `vertex` is among `indices`.
pub open spec fn spec_uses(indices: Seq<usize>, vertex: int) -> bool {
    exists|k: int| 0 <= k < indices.len() && #[trigger] indices[k] == vertex
}

/// `colors` with `color` at every index that is among `indices`.
pub open spec fn spec_paint(colors: Seq<Vector3>, indices: Seq<usize>, color: Vector3) -> Seq<
    Vector3,
> {
    Seq::new(
        colors.len(),
        |v: int|
            if spec_uses(indices, v) {
                color
            } else {
                colors[v]
            },
    )
}

/// The colours of `count` vertices: each has the colour of the last group
/// that uses it, and the default colour if no group does.
pub open spec fn spec_colors(groups: Seq<GroupView>, materials: Seq<MaterialView>, count: nat) -> Seq<
    Vector3,
>
    decreases groups.len(),
{
    if groups.len() == 0 {
        Seq::new(count, |v: int| spec_default_color())
    } else {
        spec_paint(
            spec_colors(groups.drop_last(), materials, count),
            spec_group_indices(groups.last().faces),
            spec_base_color(materials, groups.last().material),
        )
    }
}

/// The vertex indices as the 32-bit indices of an index buffer.
pub open spec fn spec_index_data(indices: Seq<usize>) -> Seq<u32> {
    Seq::new(indices.len(), |i: int| indices[i] as u32)
}

/// What a line of a mesh file is about.
pub enum LineKind {
    /// Nothing: the line is empty, a comment, or starts with a word that
    /// the parser does not know.
    Nothing,
    Vertex,
    Normal,
    Group,
    Face,
    MaterialLib,
    UseMaterial,
}

/// What a line with the given words is about: it goes by the first word.
pub open spec fn spec_line_kind(words: Seq<Seq<u8>>) -> LineKind {
    if words.len() == 0 || words[0][0] == HASH {
        LineKind::Nothing
    } else if words[0] == spec_ascii("v"@) {
        LineKind::Vertex
    } else if words[0] == spec_ascii("vn"@) {
        LineKind::Normal
    } else if words[0] == spec_ascii("g"@) {
        LineKind::Group
    } else if words[0] == spec_ascii("f"@) {
        LineKind::Face
    } else if words[0] == spec_ascii("mtllib"@) {
        LineKind::MaterialLib
    } else if words[0] == spec_ascii("usemtl"@) {
        LineKind::UseMaterial
    } else {
        LineKind::Nothing
    }
}

/// Calls `std::path::Path::parent` on `path`.
///
/// Trusted, from the documentation of std: the parent is the path without
/// its final component, so its text is the beginning of the text of `path`.
#[verifier::external_body]
fn parent_dir(path: &str) -> (r: Option<String>)
    ensures
        match r {
            Some(parent) => parent@.len() <= path@.len() && parent@ == path@.subrange(
                0,
                parent@.len() as int,
            ),
            None => true,
        },
{
    match std::path::Path::new(path).parent() {
        Some(parent) => Some(parent.to_string_lossy().to_string()),
        None => None,
    }
}

/// A copy of `name`.
pub fn copy_name(name: &Option<Vec<u8>>) -> (r: Option<Vec<u8>>)
    ensures
        spec_name(r) == spec_name(*name),
{
    match name {
        Some(text) => Some(copy_text(text)),
        None => None,
    }
}

impl Group {
    /// A group without faces and without a material.
    pub fn new(name: Vec<u8>) -> (r: Group)
        ensures
            r@ == (GroupView { name: name@, faces: Seq::empty(), material: None }),
    {
        let group = Group { name, faces: Vec::new(), material: None };
        assert(spec_faces(group.faces@) =~= Seq::<Seq<FaceVertex>>::empty());
        group
    }

    /// Whether the group has no faces.
    pub fn is_empty(&self) -> (r: bool)
        ensures
            r == (self@.faces.len() == 0),
    {
        self.faces.len() == 0
    }
}

impl Object {
    /// A mesh without vertices, groups or materials, centred at the origin.
    pub fn new() -> (r: Object)
        ensures
            r.groups@.len() == 0,
            r.vertices@.len() == 0,
            r.normals@.len() == 0,
            r.materials@.len() == 0,
            r.center == (Vector3 { x: 0, y: 0, z: 0 }),
    {
        Object {
            groups: Vec::new(),
            vertices: Vec::new(),
            normals: Vec::new(),
            center: Vector3 { x: 0, y: 0, z: 0 },
            materials: Vec::new(),
        }
    }

    /// Cuts a face into triangles, fanning out from its first corner.
    pub fn triangulate_face(face: &[FaceVertex]) -> (r: Vec<Face>)
        ensures
            spec_faces(r@) == spec_triangulate(face@),
    {
        let mut triangles: Vec<Face> = Vec::new();
        if face.len() < 3 {
            assert(spec_faces(triangles@) =~= spec_triangulate(face@));
            return triangles;
        }
        let mut i: usize = 1;
        while i < face.len() - 1
            invariant
                face@.len() >= 3,
                1 <= i <= face@.len() - 1,
                triangles@.len() == i - 1,
                forall|k: int|
                    0 <= k < i - 1 ==> (#[trigger] triangles@[k])@ =~= seq![
                        face@[0],
                        face@[k + 1],
                        face@[k + 2],
                    ],
            decreases face@.len() - i,
        {
            let mut triangle: Face = Vec::new();
            triangle.push(face[0]);
            triangle.push(face[i]);
            triangle.push(face[i + 1]);
            triangles.push(triangle);
            i += 1;
        }
        assert(spec_faces(triangles@) =~= spec_triangulate(face@));
        triangles
    }
}

impl ObjectParser {
    /// A parser of the mesh file at `path`, with the directory in which
    /// `directory` says the file lies; without one, the directory is empty.
    pub fn in_directory(path: &str, directory: Option<String>) -> (r: ObjectParser)
        ensures
            r.path@ == path@,
            r.base_dir@ == match directory {
                Some(parent) => parent@,
                None => Seq::<char>::empty(),
            },
    {
        let base_dir = match directory {
            Some(parent) => parent,
            None => String::new(),
        };
        ObjectParser { path: path.to_owned(), base_dir }
    }

    /// A parser of the mesh file at `path`. Its base directory is the parent
    /// of `path`, which is the beginning of `path`, or empty if `path` has
    /// no parent.
    pub fn new(path: &str) -> (r: Result<ObjectParser, String>)
        ensures
            r is Ok,
            r->Ok_0.path@ == path@,
            r->Ok_0.base_dir@.len() <= path@.len(),
            r->Ok_0.base_dir@ == path@.subrange(0, r->Ok_0.base_dir@.len() as int),
    {
        let parser = Self::in_directory(path, parent_dir(path));
        assert(parser.base_dir@ =~= path@.subrange(0, parser.base_dir@.len() as int));
        Ok(parser)
    }

    /// The three coordinates of a vertex line, as written: the three words
    /// after the keyword. A line with fewer words is an error.
    pub fn parse_vertex(&self, parts: &Vec<Vec<u8>>) -> (r: Result<Coordinates, ObjError>)
        ensures
            match r {
                Ok(coordinates) => {
                    &&& parts@.len() >= VECTOR_WORDS
                    &&& coordinates.x@ == parts@[1]@
                    &&& coordinates.y@ == parts@[2]@
                    &&& coordinates.z@ == parts@[3]@
                },
                Err(e) => {
                    &&& parts@.len() < VECTOR_WORDS
                    &&& e matches ObjError::ParseError(message)
                    &&& message@ == "Not enough coordinates for vertex"@
                },
            },
    {
        if parts.len() < VECTOR_WORDS {
            return Err(ObjError::ParseError(String::from_str("Not enough coordinates for vertex")));
        }
        Ok(
            Coordinates {
                x: copy_text(&parts[1]),
                y: copy_text(&parts[2]),
                z: copy_text(&parts[3]),
            },
        )
    }

    /// The three coordinates of a normal line, as written: the three words
    /// after the keyword. A line with fewer words is an error.
    pub fn parse_normal(&self, parts: &Vec<Vec<u8>>) -> (r: Result<Coordinates, ObjError>)
        ensures
            match r {
                Ok(coordinates) => {
                    &&& parts@.len() >= VECTOR_WORDS
                    &&& coordinates.x@ == parts@[1]@
                    &&& coordinates.y@ == parts@[2]@
                    &&& coordinates.z@ == parts@[3]@
                },
                Err(e) => {
                    &&& parts@.len() < VECTOR_WORDS
                    &&& e matches ObjError::ParseError(message)
                    &&& message@ == "Not enough coordinates for normal"@
                },
            },
    {
        if parts.len() < VECTOR_WORDS {
            return Err(ObjError::ParseError(String::from_str("Not enough coordinates for normal")));
        }
        Ok(
            Coordinates {
                x: copy_text(&parts[1]),
                y: copy_text(&parts[2]),
                z: copy_text(&parts[3]),
            },
        )
    }

    /// The group that a group line starts: it is named by the words after
    /// the keyword, or `unnamed` if there are none, has no faces yet, and
    /// takes the material in use.
    pub fn parse_group(&self, parts: &Vec<Vec<u8>>, material: Option<Vec<u8>>) -> (r: Result<
        Group,
        ObjError,
    >)
        ensures
            r is Ok,
            r->Ok_0@ == (GroupView {
                name: if parts@.len() > 1 {
                    spec_rest_of_line(spec_views(parts@))
                } else {
                    spec_ascii("unnamed"@)
                },
                faces: Seq::empty(),
                material: spec_name(material),
            }),
    {
        let name = if parts.len() > 1 {
            join(parts, 1, BLANK)
        } else {
            unnamed()
        };
        let mut group = Group::new(name);
        group.material = material;
        Ok(group)
    }

    /// The material that a line names for the faces that follow: the words
    /// after the keyword, or none if there are no such words.
    pub fn parse_use_material(&self, parts: &Vec<Vec<u8>>) -> (r: Result<Option<Vec<u8>>, ObjError>)
        ensures
            r is Ok,
            spec_name(r->Ok_0) == if parts@.len() < 2 {
                None
            } else {
                Some(spec_rest_of_line(spec_views(parts@)))
            },
    {
        if parts.len() < 2 {
            Ok(None)
        } else {
            Ok(Some(join(parts, 1, BLANK)))
        }
    }

    /// The name of the material library that a line names: the words after
    /// the keyword, or none if there are no such words.
    pub fn parse_material_lib(&self, parts: &Vec<Vec<u8>>) -> (r: Result<Option<Vec<u8>>, ObjError>)
        ensures
            r is Ok,
            spec_name(r->Ok_0) == if parts@.len() < 2 {
                None
            } else {
                Some(spec_rest_of_line(spec_views(parts@)))
            },
    {
        if parts.len() < 2 {
            Ok(None)
        } else {
            Ok(Some(join(parts, 1, BLANK)))
        }
    }

    /// Where the material library `name` is found: at `name` itself if that
    /// is an absolute path, else at `name` within the base directory.
    pub fn material_path(&self, name: &Vec<u8>, absolute: bool) -> (r: Vec<u8>)
        ensures
            r@ == if absolute {
                name@
            } else {
                vstd::utf8::encode_utf8(self.base_dir@) + seq![SLASH] + name@
            },
    {
        if absolute {
            return copy_text(name);
        }
        let base = self.base_dir.as_str().as_bytes();
        let mut path: Vec<u8> = Vec::new();
        let mut i: usize = 0;
        while i < base.len()
            invariant
                i <= base@.len(),
                path@ == base@.take(i as int),
            decreases base@.len() - i,
        {
            path.push(base[i]);
            i += 1;
            assert(path@ =~= base@.take(i as int));
        }
        assert(base@.take(base@.len() as int) =~= base@);
        path.push(SLASH);
        let mut k: usize = 0;
        while k < name.len()
            invariant
                k <= name@.len(),
                path@ == base@ + seq![SLASH] + name@.take(k as int),
            decreases name@.len() - k,
        {
            path.push(name[k]);
            k += 1;
            assert(path@ =~= base@ + seq![SLASH] + name@.take(k as int));
        }
        assert(name@.take(name@.len() as int) =~= name@);
        path
    }

    /// Reads one corner of a face.
    pub fn parse_corner(text: &Vec<u8>, vertex_count: usize, normal_count: usize) -> (r: Result<
        FaceVertex,
        ObjError,
    >)
        ensures
            match r {
                Ok(corner) => spec_corner(text@, vertex_count as nat, normal_count as nat) == Ok::<
                    FaceVertex,
                    CornerFault,
                >(corner),
                Err(e) => spec_reports_corner(
                    e,
                    text@,
                    vertex_count as nat,
                    normal_count as nat,
                ),
            },
    {
        let parts = split(text.as_slice(), SLASH);
        assert(spec_views(parts@)[0] == parts@[0]@);
        let vertex = match parse_usize(parts[0].as_slice()) {
            Some(index) => zero_based(index),
            None => {
                return Err(ObjError::ParseError(String::from_str("Invalid vertex index")));
            },
        };
        if vertex >= vertex_count {
            return Err(ObjError::InvalidIndex);
        }
        let texture = optional_index(&parts, 1);
        let normal = optional_index(&parts, 2);
        match normal {
            Some(index) => {
                if index >= normal_count {
                    return Err(ObjError::InvalidIndex);
                }
            },
            None => {},
        }
        Ok(FaceVertex { vertex, texture, normal })
    }

    /// Reads a face line and adds the triangles of the face to `group`.
    ///
    /// The words after the keyword are the corners of the face; there must
    /// be at least three. If a corner is wrong, the first wrong corner is
    /// the error and the group stays as it is.
    pub fn parse_face(
        &self,
        parts: &Vec<Vec<u8>>,
        group: &mut Group,
        vertex_count: usize,
        normal_count: usize,
    ) -> (r: Result<(), ObjError>)
        ensures
            final(group).name == old(group).name,
            final(group).material == old(group).material,
            match r {
                Ok(_) => {
                    let texts = spec_views(parts@).skip(1);
                    &&& parts@.len() >= FACE_WORDS
                    &&& spec_corners_ok(texts, vertex_count as nat, normal_count as nat)
                    &&& final(group)@.faces == old(group)@.faces + spec_triangulate(
                        spec_corners(texts, vertex_count as nat, normal_count as nat),
                    )
                },
                Err(e) => {
                    let texts = spec_views(parts@).skip(1);
                    &&& final(group)@.faces == old(group)@.faces
                    &&& if parts@.len() < FACE_WORDS {
                        e matches ObjError::ParseError(message) && message@
                            == "Face needs at least 3 vertices"@
                    } else {
                        exists|i: int|
                            is_first_bad_corner(texts, vertex_count as nat, normal_count as nat, i)
                                && #[trigger] spec_reports_corner(
                                e,
                                texts[i],
                                vertex_count as nat,
                                normal_count as nat,
                            )
                    }
                },
            },
    {
        if parts.len() < FACE_WORDS {
            return Err(ObjError::ParseError(String::from_str("Face needs at least 3 vertices")));
        }
        let ghost texts = spec_views(parts@).skip(1);
        let mut face: Face = Vec::new();
        let mut i: usize = 1;
        while i < parts.len()
            invariant
                *group == *old(group),
                parts@.len() >= FACE_WORDS,
                1 <= i <= parts@.len(),
                texts == spec_views(parts@).skip(1),
                face@.len() == i - 1,
                forall|k: int|
                    0 <= k < i - 1 ==> (#[trigger] spec_corner(
                        texts[k],
                        vertex_count as nat,
                        normal_count as nat,
                    )) == Ok::<FaceVertex, CornerFault>(face@[k]),
            decreases parts@.len() - i,
        {
            assert(texts[i - 1] == parts@[i as int]@);
            match Self::parse_corner(&parts[i], vertex_count, normal_count) {
                Ok(corner) => {
                    face.push(corner);
                },
                Err(e) => {
                    assert(is_first_bad_corner(
                        texts,
                        vertex_count as nat,
                        normal_count as nat,
                        i - 1,
                    ));
                    assert(spec_reports_corner(
                        e,
                        texts[i - 1],
                        vertex_count as nat,
                        normal_count as nat,
                    ));
                    return Err(e);
                },
            }
            i += 1;
        }
        assert(face@ =~= spec_corners(texts, vertex_count as nat, normal_count as nat));
        let mut triangles = Object::triangulate_face(face.as_slice());
        append_faces(&mut group.faces, &mut triangles);
        Ok(())
    }
}

/// Moves the faces of `more` to the end of `faces`.
fn append_faces(faces: &mut Vec<Face>, more: &mut Vec<Face>)
    ensures
        spec_faces(final(faces)@) == spec_faces(old(faces)@) + spec_faces(old(more)@),
{
    let ghost before = faces@;
    let ghost added = more@;
    faces.append(more);
    assert(faces@ =~= before + added);
    assert(spec_faces(faces@) =~= spec_faces(before) + spec_faces(added));
}

/// The name of a group whose line names none.
fn unnamed() -> (r: Vec<u8>)
    ensures
        r@ == spec_ascii("unnamed"@),
{
    let mut name: Vec<u8> = Vec::new();
    name.push(117);
    name.push(110);
    name.push(110);
    name.push(97);
    name.push(109);
    name.push(101);
    name.push(100);
    proof {
        reveal_strlit("unnamed");
        assert(name@ =~= spec_ascii("unnamed"@));
    }
    name
}

/// A positive index of the file as an index counted from 0.
fn zero_based(index: usize) -> (r: usize)
    ensures
        r == spec_zero_based(index),
{
    if index == 0 {
        0
    } else {
        index - 1
    }
}

/// The index at position `at` of a corner, if it is written there and is a
/// number.
fn optional_index(parts: &Vec<Vec<u8>>, at: usize) -> (r: Option<usize>)
    ensures
        r == spec_optional_index(spec_views(parts@), at as int),
{
    if at < parts.len() && parts[at].len() > 0 {
        assert(spec_views(parts@)[at as int] == parts@[at as int]@);
        match parse_usize(parts[at].as_slice()) {
            Some(index) => Some(zero_based(index)),
            None => None,
        }
    } else {
        None
    }
}

/// What the parser holds between two lines of a mesh file.
#[derive(Debug, Clone)]
pub struct ParseState {
    /// The mesh as far as it has been read.
    pub object: Object,
    /// The group that faces are added to.
    pub current_group: Group,
    /// Name of the material in use.
    pub current_material: Option<Vec<u8>>,
}

/// What is left to do for a line once the parser has read it.
#[derive(Debug, Clone)]
pub enum LineAction {
    /// Nothing.
    Done,
    /// Read the three numbers and add them to the mesh as a vertex.
    ReadVertex(Coordinates),
    /// Read the three numbers and add them to the mesh as a normal.
    ReadNormal(Coordinates),
    /// Read the material library of this name and add its materials to the
    /// mesh.
    LoadMaterials(Vec<u8>),
}

/// The parser's state as plain values.
pub struct StateView {
    pub groups: Seq<GroupView>,
    pub vertices: Seq<Vector3>,
    pub normals: Seq<Vector3>,
    pub center: Vector3,
    pub materials: Seq<MaterialView>,
    pub current_group: GroupView,
    pub current_material: Option<Seq<u8>>,
}

impl View for ParseState {
    type V = StateView;

    open spec fn view(&self) -> StateView {
        StateView {
            groups: spec_groups(self.object.groups@),
            vertices: self.object.vertices@,
            normals: self.object.normals@,
            center: self.object.center,
            materials: spec_materials(self.object.materials@),
            current_group: self.current_group@,
            current_material: spec_name(self.current_material),
        }
    }
}

/// Whether `coordinates` are the three words after the keyword.
pub open spec fn spec_coordinates(coordinates: Coordinates, words: Seq<Seq<u8>>) -> bool {
    &&& words.len() >= VECTOR_WORDS
    &&& coordinates.x@ == words[1]
    &&& coordinates.y@ == words[2]
    &&& coordinates.z@ == words[3]
}

/// Whether `error` is the parse error with the given message.
pub open spec fn spec_parse_error(error: ObjError, message: Seq<char>) -> bool {
    error matches ObjError::ParseError(text) && text@ == message
}

/// The groups once the current group is closed: it joins them if it has
/// faces.
pub open spec fn spec_close_group(groups: Seq<GroupView>, current: GroupView) -> Seq<GroupView> {
    if current.faces.len() > 0 {
        groups.push(current)
    } else {
        groups
    }
}

/// What reading a line does to the parser's state and what it returns.
///
/// A vertex or normal line hands its three numbers back to be read. A group
/// line closes the current group and starts a new one with the material in
/// use. A face line adds the triangles of the face to the current group. A
/// material library line hands the name of the library back. A material
/// line changes the material in use, for the current group too. Any other
/// line changes nothing.
pub open spec fn spec_line_effect(
    before: StateView,
    line: Seq<u8>,
    after: StateView,
    result: Result<LineAction, ObjError>,
) -> bool {
    let words = spec_split_whitespace(line);
    let vertex_count = before.vertices.len();
    let normal_count = before.normals.len();
    match spec_line_kind(words) {
        LineKind::Nothing => after == before && result matches Ok(LineAction::Done),
        LineKind::Vertex => after == before && match result {
            Ok(LineAction::ReadVertex(coordinates)) => spec_coordinates(coordinates, words),
            Ok(_) => false,
            Err(e) => words.len() < VECTOR_WORDS && spec_parse_error(
                e,
                "Not enough coordinates for vertex"@,
            ),
        },
        LineKind::Normal => after == before && match result {
            Ok(LineAction::ReadNormal(coordinates)) => spec_coordinates(coordinates, words),
            Ok(_) => false,
            Err(e) => words.len() < VECTOR_WORDS && spec_parse_error(
                e,
                "Not enough coordinates for normal"@,
            ),
        },
        LineKind::Group => {
            &&& result matches Ok(LineAction::Done)
            &&& after == (StateView {
                groups: spec_close_group(before.groups, before.current_group),
                current_group: GroupView {
                    name: if words.len() > 1 {
                        spec_rest_of_line(words)
                    } else {
                        spec_ascii("unnamed"@)
                    },
                    faces: Seq::empty(),
                    material: before.current_material,
                },
                ..before
            })
        },
        LineKind::Face => match result {
            Ok(LineAction::Done) => {
                &&& words.len() >= FACE_WORDS
                &&& spec_corners_ok(words.skip(1), vertex_count, normal_count)
                &&& after == (StateView {
                    current_group: GroupView {
                        faces: before.current_group.faces + spec_triangulate(
                            spec_corners(words.skip(1), vertex_count, normal_count),
                        ),
                        ..before.current_group
                    },
                    ..before
                })
            },
            Ok(_) => false,
            Err(e) => {
                &&& after == before
                &&& if words.len() < FACE_WORDS {
                    spec_parse_error(e, "Face needs at least 3 vertices"@)
                } else {
                    exists|i: int|
                        is_first_bad_corner(words.skip(1), vertex_count, normal_count, i)
                            && #[trigger] spec_reports_corner(
                            e,
                            words.skip(1)[i],
                            vertex_count,
                            normal_count,
                        )
                }
            },
        },
        LineKind::MaterialLib => after == before && match result {
            Ok(LineAction::LoadMaterials(name)) => words.len() >= 2 && name@ == spec_rest_of_line(
                words,
            ),
            Ok(LineAction::Done) => words.len() < 2,
            _ => false,
        },
        LineKind::UseMaterial => {
            let material = if words.len() < 2 {
                None
            } else {
                Some(spec_rest_of_line(words))
            };
            &&& result matches Ok(LineAction::Done)
            &&& after == (StateView {
                current_group: GroupView { material, ..before.current_group },
                current_material: material,
                ..before
            })
        },
    }
}

impl ObjectParser {
    /// The state before the first line: an empty mesh, a group named
    /// `default`, and no material in use.
    pub fn begin(&self) -> (r: ParseState)
        ensures
            r@ == (StateView {
                groups: Seq::empty(),
                vertices: Seq::empty(),
                normals: Seq::empty(),
                center: Vector3 { x: 0, y: 0, z: 0 },
                materials: Seq::empty(),
                current_group: GroupView {
                    name: spec_ascii("default"@),
                    faces: Seq::empty(),
                    material: None,
                },
                current_material: None,
            }),
    {
        let state = ParseState {
            object: Object::new(),
            current_group: Group::new(default_name()),
            current_material: None,
        };
        assert(spec_groups(state.object.groups@) =~= Seq::<GroupView>::empty());
        assert(spec_materials(state.object.materials@) =~= Seq::<MaterialView>::empty());
        assert(state.object.vertices@ =~= Seq::<Vector3>::empty());
        assert(state.object.normals@ =~= Seq::<Vector3>::empty());
        state
    }

    /// Reads one line of a mesh file.
    pub fn parse_line(&self, state: &mut ParseState, line: &[u8]) -> (r: Result<LineAction, ObjError>)
        ensures
            spec_line_effect(old(state)@, line@, final(state)@, r),
    {
        let words = split_whitespace(line);
        let ghost texts = spec_views(words@);
        if words.len() == 0 {
            return Ok(LineAction::Done);
        }
        proof {
            crate::text::split_gives_words(line@, 0, Seq::empty());
            assert(texts[0] == words@[0]@);
            assert(crate::text::spec_is_word(spec_split_whitespace(line@)[0]));
            reveal_strlit("v");
            reveal_strlit("vn");
            reveal_strlit("g");
            reveal_strlit("f");
            reveal_strlit("mtllib");
            reveal_strlit("usemtl");
        }
        let first = words[0].as_slice();
        if first[0] == HASH {
            Ok(LineAction::Done)
        } else if is_keyword(first, "v") {
            match self.parse_vertex(&words) {
                Ok(coordinates) => {
                    assert(texts[1] == words@[1]@ && texts[2] == words@[2]@ && texts[3]
                        == words@[3]@);
                    Ok(LineAction::ReadVertex(coordinates))
                },
                Err(e) => Err(e),
            }
        } else if is_keyword(first, "vn") {
            match self.parse_normal(&words) {
                Ok(coordinates) => {
                    assert(texts[1] == words@[1]@ && texts[2] == words@[2]@ && texts[3]
                        == words@[3]@);
                    Ok(LineAction::ReadNormal(coordinates))
                },
                Err(e) => Err(e),
            }
        } else if is_keyword(first, "g") {
            let material = copy_name(&state.current_material);
            let mut group = match self.parse_group(&words, material) {
                Ok(group) => group,
                Err(e) => { return Err(e); },
            };
            std::mem::swap(&mut state.current_group, &mut group);
            if !group.is_empty() {
                let ghost before = spec_groups(state.object.groups@);
                let ghost closed = group@;
                state.object.groups.push(group);
                assert(spec_groups(state.object.groups@) =~= before.push(closed));
            }
            Ok(LineAction::Done)
        } else if is_keyword(first, "f") {
            let vertex_count = state.object.vertices.len();
            let normal_count = state.object.normals.len();
            match self.parse_face(&words, &mut state.current_group, vertex_count, normal_count) {
                Ok(_) => Ok(LineAction::Done),
                Err(e) => Err(e),
            }
        } else if is_keyword(first, "mtllib") {
            match self.parse_material_lib(&words) {
                Ok(Some(name)) => Ok(LineAction::LoadMaterials(name)),
                Ok(None) => Ok(LineAction::Done),
                Err(e) => Err(e),
            }
        } else if is_keyword(first, "usemtl") {
            let material = match self.parse_use_material(&words) {
                Ok(material) => material,
                Err(e) => { return Err(e); },
            };
            state.current_group.material = copy_name(&material);
            state.current_material = material;
            Ok(LineAction::Done)
        } else {
            Ok(LineAction::Done)
        }
    }

    /// Ends the reading of a mesh file: closes the current group and hands
    /// the mesh over.
    pub fn finish(&self, state: ParseState) -> (r: Object)
        ensures
            spec_groups(r.groups@) == spec_close_group(state@.groups, state@.current_group),
            r.vertices@ == state@.vertices,
            r.normals@ == state@.normals,
            r.center == state@.center,
            spec_materials(r.materials@) == state@.materials,
    {
        let mut object = state.object;
        let group = state.current_group;
        if !group.is_empty() {
            let ghost before = spec_groups(object.groups@);
            let ghost closed = group@;
            object.groups.push(group);
            assert(spec_groups(object.groups@) =~= before.push(closed));
        }
        object
    }
}

/// The name of the group that faces belong to before any group line.
fn default_name() -> (r: Vec<u8>)
    ensures
        r@ == spec_ascii("default"@),
{
    let mut name: Vec<u8> = Vec::new();
    name.push(100);
    name.push(101);
    name.push(102);
    name.push(97);
    name.push(117);
    name.push(108);
    name.push(116);
    proof {
        reveal_strlit("default");
        assert(name@ =~= spec_ascii("default"@));
    }
    name
}

/// Painting with the indices of one more corner is painting, and then
/// setting the colour at that corner's index.
proof fn paint_one_more(colors: Seq<Vector3>, indices: Seq<usize>, index: usize, color: Vector3)
    ensures
        spec_paint(colors, indices.push(index), color) == if index < colors.len() {
            spec_paint(colors, indices, color).update(index as int, color)
        } else {
            spec_paint(colors, indices, color)
        },
{
    let more = indices.push(index);
    let painted = spec_paint(colors, indices, color);
    let target = if index < colors.len() {
        painted.update(index as int, color)
    } else {
        painted
    };
    assert forall|v: int| 0 <= v < colors.len() implies #[trigger] spec_paint(colors, more, color)[v]
        == target[v] by {
        if spec_uses(indices, v) {
            let k = choose|k: int| 0 <= k < indices.len() && #[trigger] indices[k] == v;
            assert(more[k] == v);
        }
        if spec_uses(more, v) {
            let k = choose|k: int| 0 <= k < more.len() && #[trigger] more[k] == v;
            if k < indices.len() {
                assert(indices[k] == v);
            }
        } else {
            assert(more[indices.len() as int] == index);
        }
    }
    assert(spec_paint(colors, more, color) =~= target);
}

/// Painting with no indices changes nothing.
proof fn paint_nothing(colors: Seq<Vector3>, color: Vector3)
    ensures
        spec_paint(colors, Seq::empty(), color) == colors,
{
    assert(spec_paint(colors, Seq::empty(), color) =~= colors);
}

/// The colours of the vertices, as plain values.
pub open spec fn spec_vertex_colors(vertices: Seq<Vertex>) -> Seq<Vector3> {
    Seq::new(vertices.len(), |i: int| vertices[i].color)
}

impl Group {
    /// Whether every vertex index of the group fits an index buffer.
    pub open spec fn spec_indexable(self) -> bool {
        forall|f: int, c: int|
            0 <= f < self.faces@.len() && 0 <= c < self.faces@[f]@.len() ==> (
            #[trigger] self.faces@[f]@[c]).vertex <= u32::MAX
    }

    /// Gives the colour `color` to every vertex that the group uses, and
    /// adds the vertex indices of its corners to `indices`.
    fn paint(&self, vertices: &mut Vec<Vertex>, indices: &mut Vec<u32>, color: Vector3)
        requires
            self.spec_indexable(),
        ensures
            final(vertices)@.len() == old(vertices)@.len(),
            forall|i: int|
                0 <= i < final(vertices)@.len() ==> (#[trigger] final(vertices)@[i]).position
                    == old(vertices)@[i].position && final(vertices)@[i].normal
                    == old(vertices)@[i].normal,
            spec_vertex_colors(final(vertices)@) == spec_paint(
                spec_vertex_colors(old(vertices)@),
                spec_group_indices(self@.faces),
                color,
            ),
            final(indices)@ == old(indices)@ + spec_index_data(spec_group_indices(self@.faces)),
    {
        let ghost start = spec_vertex_colors(vertices@);
        let ghost faces = spec_faces(self.faces@);
        let mut f: usize = 0;
        proof {
            paint_nothing(start, color);
            assert(faces.take(0) =~= Seq::<Seq<FaceVertex>>::empty());
            assert(indices@ + spec_index_data(Seq::<usize>::empty()) =~= indices@);
        }
        while f < self.faces.len()
            invariant
                self.spec_indexable(),
                f <= self.faces@.len(),
                faces == spec_faces(self.faces@),
                vertices@.len() == old(vertices)@.len(),
                start == spec_vertex_colors(old(vertices)@),
                forall|i: int|
                    0 <= i < vertices@.len() ==> (#[trigger] vertices@[i]).position
                        == old(vertices)@[i].position && vertices@[i].normal
                        == old(vertices)@[i].normal,
                spec_vertex_colors(vertices@) == spec_paint(
                    start,
                    spec_group_indices(faces.take(f as int)),
                    color,
                ),
                indices@ == old(indices)@ + spec_index_data(
                    spec_group_indices(faces.take(f as int)),
                ),
            decreases self.faces@.len() - f,
        {
            let face = &self.faces[f];
            let ghost done = spec_group_indices(faces.take(f as int));
            let ghost corners = spec_face_indices(face@);
            let mut c: usize = 0;
            proof {
                assert(corners.take(0) =~= Seq::<usize>::empty());
                assert(done + Seq::<usize>::empty() =~= done);
                assert(faces[f as int] == face@);
            }
            while c < face.len()
                invariant
                    self.spec_indexable(),
                    f < self.faces@.len(),
                    face@ == self.faces@[f as int]@,
                    c <= face@.len(),
                    corners == spec_face_indices(face@),
                    vertices@.len() == old(vertices)@.len(),
                    start == spec_vertex_colors(old(vertices)@),
                    forall|i: int|
                        0 <= i < vertices@.len() ==> (#[trigger] vertices@[i]).position
                            == old(vertices)@[i].position && vertices@[i].normal
                            == old(vertices)@[i].normal,
                    spec_vertex_colors(vertices@) == spec_paint(
                        start,
                        done + corners.take(c as int),
                        color,
                    ),
                    indices@ == old(indices)@ + spec_index_data(done + corners.take(c as int)),
                decreases face@.len() - c,
            {
                let corner = face[c];
                let ghost colors_before = spec_vertex_colors(vertices@);
                let ghost painted = done + corners.take(c as int);
                assert(self.faces@[f as int]@[c as int].vertex <= u32::MAX);
                if corner.vertex < vertices.len() {
                    let vertex = vertices[corner.vertex];
                    vertices.set(corner.vertex, Vertex { color, ..vertex });
                    assert(spec_vertex_colors(vertices@) =~= colors_before.update(
                        corner.vertex as int,
                        color,
                    ));
                }
                indices.push(corner.vertex as u32);
                c += 1;
                proof {
                    assert(corners.take(c as int) =~= corners.take(c - 1).push(corner.vertex));
                    assert(done + corners.take(c as int) =~= painted.push(corner.vertex));
                    paint_one_more(start, painted, corner.vertex, color);
                    assert(spec_index_data(painted.push(corner.vertex)) =~= spec_index_data(
                        painted,
                    ).push(corner.vertex as u32));
                }
            }
            f += 1;
            proof {
                assert(corners.take(corners.len() as int) =~= corners);
                let taken = faces.take(f as int);
                assert(taken.drop_last() =~= faces.take(f - 1));
                assert(taken.last() == face@);
            }
        }
        assert(faces.take(faces.len() as int) =~= faces);
    }
}

impl Object {
    /// Whether every vertex index of the mesh fits an index buffer.
    pub open spec fn spec_indexable(self) -> bool {
        forall|g: int| 0 <= g < self.groups@.len() ==> (#[trigger] self.groups@[g]).spec_indexable()
    }

    /// The vertex at `i` as the vertex shader reads it: its position, the
    /// normal at the same index or the default normal, and its colour.
    pub open spec fn spec_vertex(self, i: int) -> Vertex {
        Vertex {
            position: self.vertices@[i],
            normal: if i < self.normals@.len() {
                self.normals@[i]
            } else {
                spec_default_normal()
            },
            color: spec_colors(
                spec_groups(self.groups@),
                spec_materials(self.materials@),
                self.vertices@.len(),
            )[i],
        }
    }

    /// The flat vertex list and index list of the mesh.
    ///
    /// There is one vertex record for each vertex of the mesh. The index
    /// list holds the vertex index of every corner of every face, group
    /// after group.
    pub fn get_vertices_and_indices(&self) -> (r: (Vec<Vertex>, Vec<u32>))
        requires
            self.spec_indexable(),
        ensures
            r.0@.len() == self.vertices@.len(),
            forall|i: int| 0 <= i < r.0@.len() ==> #[trigger] r.0@[i] == self.spec_vertex(i),
            r.1@ == spec_index_data(spec_indices(spec_groups(self.groups@))),
    {
        let mut vertices: Vec<Vertex> = Vec::new();
        let mut indices: Vec<u32> = Vec::new();
        let default_normal = Vector3 { x: ONE_BITS, y: 0, z: 0 };
        let default_color = Vector3 {
            x: SEVEN_TENTHS_BITS,
            y: SEVEN_TENTHS_BITS,
            z: SEVEN_TENTHS_BITS,
        };
        let mut i: usize = 0;
        while i < self.vertices.len()
            invariant
                i <= self.vertices@.len(),
                vertices@.len() == i,
                default_normal == spec_default_normal(),
                default_color == spec_default_color(),
                forall|k: int|
                    0 <= k < i ==> #[trigger] vertices@[k] == (Vertex {
                        position: self.vertices@[k],
                        normal: if k < self.normals@.len() {
                            self.normals@[k]
                        } else {
                            spec_default_normal()
                        },
                        color: spec_default_color(),
                    }),
            decreases self.vertices@.len() - i,
        {
            let normal = if i < self.normals.len() {
                self.normals[i]
            } else {
                default_normal
            };
            vertices.push(Vertex { position: self.vertices[i], normal, color: default_color });
            i += 1;
        }
        let ghost groups = spec_groups(self.groups@);
        let ghost materials = spec_materials(self.materials@);
        let ghost count = self.vertices@.len();
        let mut g: usize = 0;
        proof {
            assert(groups.take(0) =~= Seq::<GroupView>::empty());
            assert(spec_vertex_colors(vertices@) =~= spec_colors(
                groups.take(0),
                materials,
                count,
            ));
            assert(indices@ =~= spec_index_data(spec_indices(groups.take(0))));
        }
        while g < self.groups.len()
            invariant
                self.spec_indexable(),
                g <= self.groups@.len(),
                groups == spec_groups(self.groups@),
                materials == spec_materials(self.materials@),
                count == self.vertices@.len(),
                default_color == spec_default_color(),
                vertices@.len() == count,
                forall|k: int|
                    0 <= k < vertices@.len() ==> (#[trigger] vertices@[k]).position
                        == self.vertices@[k] && vertices@[k].normal == if k < self.normals@.len() {
                        self.normals@[k]
                    } else {
                        spec_default_normal()
                    },
                spec_vertex_colors(vertices@) == spec_colors(groups.take(g as int), materials, count),
                indices@ == spec_index_data(spec_indices(groups.take(g as int))),
            decreases self.groups@.len() - g,
        {
            let group = &self.groups[g];
            let color = match &group.material {
                Some(name) => match Material::diffuse_of(&self.materials, name) {
                    Some(color) => color,
                    None => default_color,
                },
                None => default_color,
            };
            assert(color == spec_base_color(materials, group@.material));
            let ghost before = spec_indices(groups.take(g as int));
            group.paint(&mut vertices, &mut indices, color);
            g += 1;
            proof {
                let taken = groups.take(g as int);
                assert(taken.drop_last() =~= groups.take(g - 1));
                assert(taken.last() == group@);
                assert(spec_index_data(before) + spec_index_data(
                    spec_group_indices(group@.faces),
                ) =~= spec_index_data(before + spec_group_indices(group@.faces)));
            }
        }
        proof {
            assert(groups.take(groups.len() as int) =~= groups);
            assert forall|k: int| 0 <= k < vertices@.len() implies #[trigger] vertices@[k]
                == self.spec_vertex(k) by {
                assert(spec_vertex_colors(vertices@)[k] == vertices@[k].color);
            }
        }
        (vertices, indices)
    }
}

} // verus!
