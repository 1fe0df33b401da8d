//! Material libraries: the lines of a material file and the materials they
//! describe.

use vstd::prelude::*;

use crate::text::{
    copy_text, is_keyword, join, parse_i32, same_text, spec_ascii, spec_join, spec_parse_i32,
    spec_split_whitespace, spec_trim, spec_views, split_whitespace, trim, BLANK, HASH,
};
use crate::vulkan::vertex::Vector3;

verus! {

/// One line of a material file. Numbers other than the illumination model
/// are kept as 32-bit IEEE 754 encodings.
#[derive(Debug, Clone, PartialEq, Eq)]
pub enum MtlLine {
    Comment(Vec<u8>),
    /// Starts the material of the given name.
    NewMtl(Vec<u8>),
    /// Ambient colour.
    Ka(u32, u32, u32),
    /// Diffuse colour.
    Kd(u32, u32, u32),
    /// Specular colour.
    Ks(u32, u32, u32),
    /// Specular exponent.
    Ns(u32),
    /// Optical density.
    Ni(u32),
    /// How opaque the material is.
    Dissolve(u32),
    /// Illumination model.
    Illum(i32),
    /// File of the ambient texture.
    MapKa(Vec<u8>),
    /// File of the diffuse texture.
    MapKd(Vec<u8>),
    /// File of the specular texture.
    MapKs(Vec<u8>),
}

/// Which colour a line sets.
#[derive(Debug, Clone, Copy, PartialEq, Eq, Structural)]
pub enum ColorKind {
    Ambient,
    Diffuse,
    Specular,
}

/// Which number a line sets.
#[derive(Debug, Clone, Copy, PartialEq, Eq, Structural)]
pub enum ScalarKind {
    SpecularExponent,
    OpticalDensity,
    Dissolve,
}

/// What a line of a material file says, before its numbers are read.
#[derive(Debug, Clone)]
pub enum MtlStatement {
    /// A line that holds no number to read.
    Line(MtlLine),
    /// A colour, with its three components as written.
    Color { kind: ColorKind, red: Vec<u8>, green: Vec<u8>, blue: Vec<u8> },
    /// A number, as written.
    Scalar { kind: ScalarKind, value: Vec<u8> },
}

/// A material.
#[derive(Debug, Clone)]
pub struct Material {
    pub name: Vec<u8>,
    pub ka: Option<Vector3>,
    pub kd: Option<Vector3>,
    pub ks: Option<Vector3>,
    pub ns: Option<u32>,
    pub ni: Option<u32>,
    pub dissolve: Option<u32>,
    pub illum: Option<i32>,
    pub map_ka: Option<Vec<u8>>,
    pub map_kd: Option<Vec<u8>>,
    pub map_ks: Option<Vec<u8>>,
}

/// A parser of material libraries that reads from `reader`.
pub struct MaterialParser<R> {
    pub reader: R,
}

/// A line as plain values.
pub enum MtlLineView {
    Comment(Seq<u8>),
    NewMtl(Seq<u8>),
    Ka(u32, u32, u32),
    Kd(u32, u32, u32),
    Ks(u32, u32, u32),
    Ns(u32),
    Ni(u32),
    Dissolve(u32),
    Illum(i32),
    MapKa(Seq<u8>),
    MapKd(Seq<u8>),
    MapKs(Seq<u8>),
}

/// A statement as plain values.
pub enum MtlStatementView {
    Line(MtlLineView),
    Color { kind: ColorKind, red: Seq<u8>, green: Seq<u8>, blue: Seq<u8> },
    Scalar { kind: ScalarKind, value: Seq<u8> },
}

/// A material as plain values.
pub struct MaterialView {
    pub name: Seq<u8>,
    pub ka: Option<Vector3>,
    pub kd: Option<Vector3>,
    pub ks: Option<Vector3>,
    pub ns: Option<u32>,
    pub ni: Option<u32>,
    pub dissolve: Option<u32>,
    pub illum: Option<i32>,
    pub map_ka: Option<Seq<u8>>,
    pub map_kd: Option<Seq<u8>>,
    pub map_ks: Option<Seq<u8>>,
}

/// A file name as plain values.
pub open spec fn spec_file(name: Option<Vec<u8>>) -> Option<Seq<u8>> {
    match name {
        Some(text) => Some(text@),
        None => None,
    }
}

impl View for MtlLine {
    type V = MtlLineView;

    open spec fn view(&self) -> MtlLineView {
        match *self {
            MtlLine::Comment(text) => MtlLineView::Comment(text@),
            MtlLine::NewMtl(name) => MtlLineView::NewMtl(name@),
            MtlLine::Ka(r, g, b) => MtlLineView::Ka(r, g, b),
            MtlLine::Kd(r, g, b) => MtlLineView::Kd(r, g, b),
            MtlLine::Ks(r, g, b) => MtlLineView::Ks(r, g, b),
            MtlLine::Ns(value) => MtlLineView::Ns(value),
            MtlLine::Ni(value) => MtlLineView::Ni(value),
            MtlLine::Dissolve(value) => MtlLineView::Dissolve(value),
            MtlLine::Illum(value) => MtlLineView::Illum(value),
            MtlLine::MapKa(file) => MtlLineView::MapKa(file@),
            MtlLine::MapKd(file) => MtlLineView::MapKd(file@),
            MtlLine::MapKs(file) => MtlLineView::MapKs(file@),
        }
    }
}

impl View for MtlStatement {
    type V = MtlStatementView;

    open spec fn view(&self) -> MtlStatementView {
        match *self {
            MtlStatement::Line(line) => MtlStatementView::Line(line@),
            MtlStatement::Color { kind, red, green, blue } => MtlStatementView::Color {
                kind,
                red: red@,
                green: green@,
                blue: blue@,
            },
            MtlStatement::Scalar { kind, value } => MtlStatementView::Scalar { kind, value: value@ },
        }
    }
}

impl View for Material {
    type V = MaterialView;

    open spec fn view(&self) -> MaterialView {
        MaterialView {
            name: self.name@,
            ka: self.ka,
            kd: self.kd,
            ks: self.ks,
            ns: self.ns,
            ni: self.ni,
            dissolve: self.dissolve,
            illum: self.illum,
            map_ka: spec_file(self.map_ka),
            map_kd: spec_file(self.map_kd),
            map_ks: spec_file(self.map_ks),
        }
    }
}

/// The materials that a sequence of materials holds, as plain values.
pub open spec fn spec_materials(materials: Seq<Material>) -> Seq<MaterialView> {
    Seq::new(materials.len(), |i: int| materials[i]@)
}

/// The lines that a sequence of lines holds, as plain values.
pub open spec fn spec_lines(lines: Seq<MtlLine>) -> Seq<MtlLineView> {
    Seq::new(lines.len(), |i: int| lines[i]@)
}

/// The bytes of a keyword.
pub open spec fn spec_keyword(word: &str) -> Seq<u8> {
    spec_ascii(word@)
}

/// A material of which nothing is known, not even its name.
pub open spec fn spec_blank_material() -> MaterialView {
    MaterialView {
        name: Seq::empty(),
        ka: None,
        kd: None,
        ks: None,
        ns: None,
        ni: None,
        dissolve: None,
        illum: None,
        map_ka: None,
        map_kd: None,
        map_ks: None,
    }
}

/// What a line of a material file says.
///
/// A line without words says nothing, and a line that starts with `#` is a
/// comment: the text after the `#`, without surrounding white space. Any
/// other line goes by its first word. `newmtl` and the three texture maps
/// take the rest of the line as a name, and say nothing without one.
/// `Ka`, `Kd` and `Ks` take three numbers, `Ns`, `Ni` and `d` one, and say
/// nothing if numbers are missing. `illum` takes a whole number and says
/// nothing if that is missing or cannot be read. Other lines say nothing.
pub open spec fn spec_parse_line(line: Seq<u8>) -> Option<MtlStatementView> {
    let words = spec_split_whitespace(line);
    let trimmed = spec_trim(line);
    if words.len() == 0 {
        None
    } else if words[0][0] == HASH {
        Some(MtlStatementView::Line(MtlLineView::Comment(spec_trim(trimmed.skip(1)))))
    } else {
        let rest = spec_join(words.skip(1), BLANK);
        if words[0] == spec_keyword("newmtl") {
            if words.len() >= 2 {
                Some(MtlStatementView::Line(MtlLineView::NewMtl(rest)))
            } else {
                None
            }
        } else if words[0] == spec_keyword("Ka") {
            spec_color(ColorKind::Ambient, words)
        } else if words[0] == spec_keyword("Kd") {
            spec_color(ColorKind::Diffuse, words)
        } else if words[0] == spec_keyword("Ks") {
            spec_color(ColorKind::Specular, words)
        } else if words[0] == spec_keyword("Ns") {
            spec_scalar(ScalarKind::SpecularExponent, words)
        } else if words[0] == spec_keyword("Ni") {
            spec_scalar(ScalarKind::OpticalDensity, words)
        } else if words[0] == spec_keyword("d") {
            spec_scalar(ScalarKind::Dissolve, words)
        } else if words[0] == spec_keyword("illum") {
            if words.len() >= 2 {
                match spec_parse_i32(words[1]) {
                    Some(value) => Some(MtlStatementView::Line(MtlLineView::Illum(value))),
                    None => None,
                }
            } else {
                None
            }
        } else if words[0] == spec_keyword("map_Ka") {
            if words.len() >= 2 {
                Some(MtlStatementView::Line(MtlLineView::MapKa(rest)))
            } else {
                None
            }
        } else if words[0] == spec_keyword("map_Kd") {
            if words.len() >= 2 {
                Some(MtlStatementView::Line(MtlLineView::MapKd(rest)))
            } else {
                None
            }
        } else if words[0] == spec_keyword("map_Ks") {
            if words.len() >= 2 {
                Some(MtlStatementView::Line(MtlLineView::MapKs(rest)))
            } else {
                None
            }
        } else {
            None
        }
    }
}

/// A colour statement, if the line has three numbers.
pub open spec fn spec_color(kind: ColorKind, words: Seq<Seq<u8>>) -> Option<MtlStatementView> {
    if words.len() >= 4 {
        Some(MtlStatementView::Color { kind, red: words[1], green: words[2], blue: words[3] })
    } else {
        None
    }
}

/// A number statement, if the line has a number.
pub open spec fn spec_scalar(kind: ScalarKind, words: Seq<Seq<u8>>) -> Option<MtlStatementView> {
    if words.len() >= 2 {
        Some(MtlStatementView::Scalar { kind, value: words[1] })
    } else {
        None
    }
}

/// What a line does to the materials read so far and to the material that
/// is being read. A `newmtl` line puts the current material with the others,
/// if it has a name, and starts a blank one of the new name. A comment
/// changes nothing. Every other line sets one property of the current
/// material.
pub open spec fn spec_apply(
    materials: Seq<MaterialView>,
    current: MaterialView,
    line: MtlLineView,
) -> (Seq<MaterialView>, MaterialView) {
    match line {
        MtlLineView::NewMtl(name) => (
            if current.name.len() > 0 {
                materials.push(current)
            } else {
                materials
            },
            MaterialView { name, ..spec_blank_material() },
        ),
        MtlLineView::Ka(r, g, b) => (
            materials,
            MaterialView { ka: Some(Vector3 { x: r, y: g, z: b }), ..current },
        ),
        MtlLineView::Kd(r, g, b) => (
            materials,
            MaterialView { kd: Some(Vector3 { x: r, y: g, z: b }), ..current },
        ),
        MtlLineView::Ks(r, g, b) => (
            materials,
            MaterialView { ks: Some(Vector3 { x: r, y: g, z: b }), ..current },
        ),
        MtlLineView::Ns(value) => (materials, MaterialView { ns: Some(value), ..current }),
        MtlLineView::Ni(value) => (materials, MaterialView { ni: Some(value), ..current }),
        MtlLineView::Dissolve(value) => (
            materials,
            MaterialView { dissolve: Some(value), ..current },
        ),
        MtlLineView::Illum(value) => (materials, MaterialView { illum: Some(value), ..current }),
        MtlLineView::MapKa(file) => (materials, MaterialView { map_ka: Some(file), ..current }),
        MtlLineView::MapKd(file) => (materials, MaterialView { map_kd: Some(file), ..current }),
        MtlLineView::MapKs(file) => (materials, MaterialView { map_ks: Some(file), ..current }),
        MtlLineView::Comment(_) => (materials, current),
    }
}

/// What the lines do, one after the other, starting from no materials and a
/// blank current material.
pub open spec fn spec_apply_all(lines: Seq<MtlLineView>) -> (Seq<MaterialView>, MaterialView)
    decreases lines.len(),
{
    if lines.len() == 0 {
        (Seq::empty(), spec_blank_material())
    } else {
        let before = spec_apply_all(lines.drop_last());
        spec_apply(before.0, before.1, lines.last())
    }
}

/// The materials that the lines of a file describe, in the order in which
/// they start: those that were put aside, and the last one if it has a name.
pub open spec fn spec_parse(lines: Seq<MtlLineView>) -> Seq<MaterialView> {
    let end = spec_apply_all(lines);
    if end.1.name.len() > 0 {
        end.0.push(end.1)
    } else {
        end.0
    }
}

/// The diffuse colour of the material that `name` stands for, which is the
/// last of that name, if there is such a material and it has one.
pub open spec fn spec_diffuse_of(materials: Seq<MaterialView>, name: Seq<u8>) -> Option<Vector3>
    decreases materials.len(),
{
    if materials.len() == 0 {
        None
    } else if materials.last().name == name {
        materials.last().kd
    } else {
        spec_diffuse_of(materials.drop_last(), name)
    }
}

impl Default for Material {
    /// A material of which nothing is known, not even its name.
    fn default() -> (r: Material)
        ensures
            r@ == spec_blank_material(),
    {
        Material::new(Vec::new())
    }
}

impl Material {
    /// A material of which only the name is known.
    pub fn new(name: Vec<u8>) -> (r: Material)
        ensures
            r@ == (MaterialView { name: name@, ..spec_blank_material() }),
    {
        Material {
            name,
            ka: None,
            kd: None,
            ks: None,
            ns: None,
            ni: None,
            dissolve: None,
            illum: None,
            map_ka: None,
            map_kd: None,
            map_ks: None,
        }
    }

    /// The diffuse colour of the material that `name` stands for.
    pub fn diffuse_of(materials: &Vec<Material>, name: &Vec<u8>) -> (r: Option<Vector3>)
        ensures
            r == spec_diffuse_of(spec_materials(materials@), name@),
    {
        let ghost all = spec_materials(materials@);
        let mut i: usize = materials.len();
        assert(all.take(i as int) =~= all);
        while i > 0
            invariant
                i <= materials@.len(),
                all == spec_materials(materials@),
                spec_diffuse_of(all, name@) == spec_diffuse_of(all.take(i as int), name@),
            decreases i,
        {
            i -= 1;
            proof {
                let taken = all.take(i + 1);
                assert(taken.drop_last() =~= all.take(i as int));
                assert(taken.last() == materials@[i as int]@);
            }
            if same_text(materials[i].name.as_slice(), name.as_slice()) {
                return materials[i].kd;
            }
        }
        None
    }
}

impl<R> MaterialParser<R> {
    /// A parser that reads from `reader`.
    pub fn new(reader: R) -> (r: MaterialParser<R>)
        ensures
            r.reader == reader,
    {
        MaterialParser { reader }
    }

    /// Reads one line of a material file, up to the reading of its numbers.
    pub fn parse_line(line: &[u8]) -> (r: Option<MtlStatement>)
        ensures
            match r {
                Some(statement) => spec_parse_line(line@) == Some(statement@),
                None => spec_parse_line(line@) is None,
            },
    {
        let words = split_whitespace(line);
        if words.len() == 0 {
            return None;
        }
        proof {
            crate::text::split_gives_words(line@, 0, Seq::empty());
            assert(spec_views(words@)[0] == words@[0]@);
            assert(crate::text::spec_is_word(spec_split_whitespace(line@)[0]));
            reveal_strlit("newmtl");
            reveal_strlit("Ka");
            reveal_strlit("Kd");
            reveal_strlit("Ks");
            reveal_strlit("Ns");
            reveal_strlit("Ni");
            reveal_strlit("d");
            reveal_strlit("illum");
            reveal_strlit("map_Ka");
            reveal_strlit("map_Kd");
            reveal_strlit("map_Ks");
        }
        let first = &words[0];
        if first[0] == HASH {
            let trimmed = trim(line, 0);
            assert(line@.skip(0) =~= line@);
            proof {
                trim_starts_with_first_word(line@);
            }
            return Some(MtlStatement::Line(MtlLine::Comment(trim(trimmed.as_slice(), 1))));
        }
        if is_keyword(first.as_slice(), "newmtl") {
            if words.len() >= 2 {
                Some(MtlStatement::Line(MtlLine::NewMtl(join(&words, 1, BLANK))))
            } else {
                None
            }
        } else if is_keyword(first.as_slice(), "Ka") {
            Self::color(ColorKind::Ambient, &words)
        } else if is_keyword(first.as_slice(), "Kd") {
            Self::color(ColorKind::Diffuse, &words)
        } else if is_keyword(first.as_slice(), "Ks") {
            Self::color(ColorKind::Specular, &words)
        } else if is_keyword(first.as_slice(), "Ns") {
            Self::scalar(ScalarKind::SpecularExponent, &words)
        } else if is_keyword(first.as_slice(), "Ni") {
            Self::scalar(ScalarKind::OpticalDensity, &words)
        } else if is_keyword(first.as_slice(), "d") {
            Self::scalar(ScalarKind::Dissolve, &words)
        } else if is_keyword(first.as_slice(), "illum") {
            if words.len() >= 2 {
                assert(spec_views(words@)[1] == words@[1]@);
                match parse_i32(words[1].as_slice()) {
                    Some(value) => Some(MtlStatement::Line(MtlLine::Illum(value))),
                    None => None,
                }
            } else {
                None
            }
        } else if is_keyword(first.as_slice(), "map_Ka") {
            if words.len() >= 2 {
                Some(MtlStatement::Line(MtlLine::MapKa(join(&words, 1, BLANK))))
            } else {
                None
            }
        } else if is_keyword(first.as_slice(), "map_Kd") {
            if words.len() >= 2 {
                Some(MtlStatement::Line(MtlLine::MapKd(join(&words, 1, BLANK))))
            } else {
                None
            }
        } else if is_keyword(first.as_slice(), "map_Ks") {
            if words.len() >= 2 {
                Some(MtlStatement::Line(MtlLine::MapKs(join(&words, 1, BLANK))))
            } else {
                None
            }
        } else {
            None
        }
    }

    /// A colour statement, if the line has three numbers.
    fn color(kind: ColorKind, words: &Vec<Vec<u8>>) -> (r: Option<MtlStatement>)
        ensures
            match r {
                Some(statement) => spec_color(kind, spec_views(words@)) == Some(statement@),
                None => spec_color(kind, spec_views(words@)) is None,
            },
    {
        if words.len() >= 4 {
            Some(
                MtlStatement::Color {
                    kind,
                    red: copy_text(&words[1]),
                    green: copy_text(&words[2]),
                    blue: copy_text(&words[3]),
                },
            )
        } else {
            None
        }
    }

    /// A number statement, if the line has a number.
    fn scalar(kind: ScalarKind, words: &Vec<Vec<u8>>) -> (r: Option<MtlStatement>)
        ensures
            match r {
                Some(statement) => spec_scalar(kind, spec_views(words@)) == Some(statement@),
                None => spec_scalar(kind, spec_views(words@)) is None,
            },
    {
        if words.len() >= 2 {
            Some(MtlStatement::Scalar { kind, value: copy_text(&words[1]) })
        } else {
            None
        }
    }

    /// Takes one line into account: changes the materials read so far and
    /// the material that is being read as the line says.
    pub fn apply(materials: &mut Vec<Material>, current: &mut Material, line: MtlLine)
        ensures
            (spec_materials(final(materials)@), final(current)@) == spec_apply(
                spec_materials(old(materials)@),
                old(current)@,
                line@,
            ),
    {
        let ghost before = spec_materials(materials@);
        match line {
            MtlLine::NewMtl(name) => {
                let mut started = Material::new(name);
                std::mem::swap(current, &mut started);
                if started.name.len() > 0 {
                    let ghost finished = started@;
                    materials.push(started);
                    assert(spec_materials(materials@) =~= before.push(finished));
                }
            },
            MtlLine::Ka(r, g, b) => {
                current.ka = Some(Vector3 { x: r, y: g, z: b });
            },
            MtlLine::Kd(r, g, b) => {
                current.kd = Some(Vector3 { x: r, y: g, z: b });
            },
            MtlLine::Ks(r, g, b) => {
                current.ks = Some(Vector3 { x: r, y: g, z: b });
            },
            MtlLine::Ns(value) => {
                current.ns = Some(value);
            },
            MtlLine::Ni(value) => {
                current.ni = Some(value);
            },
            MtlLine::Dissolve(value) => {
                current.dissolve = Some(value);
            },
            MtlLine::Illum(value) => {
                current.illum = Some(value);
            },
            MtlLine::MapKa(file) => {
                current.map_ka = Some(file);
            },
            MtlLine::MapKd(file) => {
                current.map_kd = Some(file);
            },
            MtlLine::MapKs(file) => {
                current.map_ks = Some(file);
            },
            MtlLine::Comment(_) => {},
        }
    }

    /// The materials that the lines of a file describe.
    pub fn parse(lines: &Vec<MtlLine>) -> (r: Result<Vec<Material>, String>)
        ensures
            r is Ok,
            spec_materials(r->Ok_0@) == spec_parse(spec_lines(lines@)),
    {
        let mut materials: Vec<Material> = Vec::new();
        let mut current = Material::new(Vec::new());
        let ghost all = spec_lines(lines@);
        let mut done: usize = 0;
        assert(spec_materials(materials@) =~= Seq::<MaterialView>::empty());
        assert(all.take(0) =~= Seq::<MtlLineView>::empty());
        while done < lines.len()
            invariant
                done <= lines@.len(),
                all == spec_lines(lines@),
                (spec_materials(materials@), current@) == spec_apply_all(all.take(done as int)),
            decreases lines@.len() - done,
        {
            let line = copy_line(&lines[done]);
            proof {
                let taken = all.take(done + 1);
                assert(taken.drop_last() =~= all.take(done as int));
                assert(taken.last() == line@);
            }
            Self::apply(&mut materials, &mut current, line);
            done += 1;
        }
        assert(all.take(all.len() as int) =~= all);
        if current.name.len() > 0 {
            let ghost before = spec_materials(materials@);
            let ghost last = current@;
            materials.push(current);
            assert(spec_materials(materials@) =~= before.push(last));
        }
        Ok(materials)
    }
}

/// A copy of `line`.
pub fn copy_line(line: &MtlLine) -> (r: MtlLine)
    ensures
        r@ == line@,
{
    match line {
        MtlLine::Comment(text) => MtlLine::Comment(copy_text(text)),
        MtlLine::NewMtl(name) => MtlLine::NewMtl(copy_text(name)),
        MtlLine::Ka(r, g, b) => MtlLine::Ka(*r, *g, *b),
        MtlLine::Kd(r, g, b) => MtlLine::Kd(*r, *g, *b),
        MtlLine::Ks(r, g, b) => MtlLine::Ks(*r, *g, *b),
        MtlLine::Ns(value) => MtlLine::Ns(*value),
        MtlLine::Ni(value) => MtlLine::Ni(*value),
        MtlLine::Dissolve(value) => MtlLine::Dissolve(*value),
        MtlLine::Illum(value) => MtlLine::Illum(*value),
        MtlLine::MapKa(file) => MtlLine::MapKa(copy_text(file)),
        MtlLine::MapKd(file) => MtlLine::MapKd(copy_text(file)),
        MtlLine::MapKs(file) => MtlLine::MapKs(copy_text(file)),
    }
}

/// The first word of a line stands at the start of the trimmed line.
proof fn trim_starts_with_first_word(line: Seq<u8>)
    requires
        spec_split_whitespace(line).len() > 0,
    ensures
        spec_trim(line).len() > 0,
        spec_trim(line)[0] == spec_split_whitespace(line)[0][0],
{
    crate::text::first_word_starts_trimmed(line, 0);
    assert(line.skip(0) =~= line);
}

} // verus!
