use scop::materials::material::{
    copy_line, ColorKind, Material, MaterialParser, MtlLine, MtlStatement, ScalarKind,
};
use scop::objects::lexer::{copy_token, Lexer, Token};
use scop::objects::object::{
    FaceVertex, Group, LineAction, ObjError, Object, ObjectParser, ONE_BITS, SEVEN_TENTHS_BITS,
};
use scop::text::{
    is_keyword, is_space, join, parse_i32, parse_usize, same_text, split, split_whitespace, trim,
};
use scop::vulkan::vertex::{Vector3, Vertex};

fn words(line: &str) -> Vec<Vec<u8>> {
    split_whitespace(line.as_bytes())
}

fn text(value: &str) -> Vec<u8> {
    value.as_bytes().to_vec()
}

fn corner(vertex: usize) -> FaceVertex {
    FaceVertex { vertex, texture: None, normal: None }
}

fn parser() -> ObjectParser {
    ObjectParser::new("assets/teapot.obj").unwrap()
}

fn bits(x: f32, y: f32, z: f32) -> Vector3 {
    Vector3 { x: x.to_bits(), y: y.to_bits(), z: z.to_bits() }
}

#[test]
fn lines_are_split_at_white_space() {
    assert_eq!(words("v 1.0  2.0\t3.0\r\n"), vec![text("v"), text("1.0"), text("2.0"), text("3.0")]);
    assert_eq!(words("   \t  "), Vec::<Vec<u8>>::new());
    assert_eq!(words(""), Vec::<Vec<u8>>::new());
    assert_eq!(words("single"), vec![text("single")]);
    for line in ["f 1/2/3 4//5 6", "  usemtl  shiny red ", "\x0bg\x0ca b", "#c"] {
        let expected: Vec<Vec<u8>> =
            line.split_whitespace().map(|word| word.as_bytes().to_vec()).collect();
        assert_eq!(words(line), expected);
    }
    assert!(is_space(b' ') && is_space(b'\t') && is_space(b'\n') && is_space(b'\r'));
    assert!(!is_space(b'a') && !is_space(0) && !is_space(0xa0));
}

#[test]
fn texts_are_split_and_joined_at_a_separator() {
    assert_eq!(split(b"1/2/3", b'/'), vec![text("1"), text("2"), text("3")]);
    assert_eq!(split(b"1//3", b'/'), vec![text("1"), text(""), text("3")]);
    assert_eq!(split(b"7", b'/'), vec![text("7")]);
    assert_eq!(split(b"", b'/'), vec![text("")]);
    assert_eq!(split(b"/", b'/'), vec![text(""), text("")]);
    let parts = vec![text("usemtl"), text("shiny"), text("red"), text("metal")];
    assert_eq!(join(&parts, 1, b' '), text("shiny red metal"));
    assert_eq!(join(&parts, 3, b' '), text("metal"));
    assert_eq!(join(&parts, 4, b' '), text(""));
    assert_eq!(join(&parts, 0, b'/'), text("usemtl/shiny/red/metal"));
}

#[test]
fn texts_are_trimmed_and_compared() {
    assert_eq!(trim(b"  a b \t", 0), text("a b"));
    assert_eq!(trim(b"# note ", 1), text("note"));
    assert_eq!(trim(b"   ", 0), text(""));
    assert_eq!(trim(b"abc", 3), text(""));
    assert!(same_text(b"abc", b"abc"));
    assert!(!same_text(b"abc", b"abd"));
    assert!(!same_text(b"abc", b"ab"));
    assert!(is_keyword(b"usemtl", "usemtl"));
    assert!(!is_keyword(b"usemtl ", "usemtl"));
}

#[test]
fn whole_numbers_are_read_as_the_standard_library_reads_them() {
    let samples = [
        "0", "1", "42", "007", "+5", "++5", "+", "-", "", "-1", "-0", "12a", "a12", " 1", "1 ",
        "4294967295", "4294967296", "2147483647", "2147483648", "-2147483648", "-2147483649",
        "18446744073709551615", "18446744073709551616", "99999999999999999999999", "1.5", "+-1",
    ];
    for sample in samples {
        assert_eq!(parse_usize(sample.as_bytes()), sample.parse::<usize>().ok(), "{:?}", sample);
        assert_eq!(parse_i32(sample.as_bytes()), sample.parse::<i32>().ok(), "{:?}", sample);
    }
    assert_eq!(parse_usize(b"1234"), Some(1234));
    assert_eq!(parse_i32(b"-17"), Some(-17));
}

#[test]
fn faces_are_cut_into_fans() {
    let triangle = vec![corner(0), corner(1), corner(2)];
    assert_eq!(Object::triangulate_face(&triangle), vec![triangle.clone()]);
    let square = vec![corner(0), corner(1), corner(2), corner(3)];
    assert_eq!(
        Object::triangulate_face(&square),
        vec![vec![corner(0), corner(1), corner(2)], vec![corner(0), corner(2), corner(3)]]
    );
    let pentagon: Vec<FaceVertex> = (5..10).map(corner).collect();
    assert_eq!(
        Object::triangulate_face(&pentagon),
        vec![
            vec![corner(5), corner(6), corner(7)],
            vec![corner(5), corner(7), corner(8)],
            vec![corner(5), corner(8), corner(9)],
        ]
    );
    assert!(Object::triangulate_face(&[corner(0), corner(1)]).is_empty());
    assert!(Object::triangulate_face(&[]).is_empty());
}

#[test]
fn parser_knows_the_directory_of_its_file() {
    let parser = parser();
    assert_eq!(parser.path, "assets/teapot.obj");
    assert_eq!(parser.base_dir, "assets");
    assert_eq!(ObjectParser::new("teapot.obj").unwrap().base_dir, "");
    assert_eq!(ObjectParser::new("").unwrap().base_dir, "");
    assert_eq!(ObjectParser::new("a/b/c.obj").unwrap().base_dir, "a/b");
    let placed = ObjectParser::in_directory("x.obj", Some("models".to_string()));
    assert_eq!((placed.path.as_str(), placed.base_dir.as_str()), ("x.obj", "models"));
    assert_eq!(parser.material_path(&text("teapot.mtl"), false), text("assets/teapot.mtl"));
    assert_eq!(parser.material_path(&text("/opt/teapot.mtl"), true), text("/opt/teapot.mtl"));
}

#[test]
fn corners_hold_up_to_three_indices() {
    assert_eq!(
        ObjectParser::parse_corner(&text("3/7/2"), 5, 4).unwrap(),
        FaceVertex { vertex: 2, texture: Some(6), normal: Some(1) }
    );
    assert_eq!(
        ObjectParser::parse_corner(&text("1//4"), 5, 4).unwrap(),
        FaceVertex { vertex: 0, texture: None, normal: Some(3) }
    );
    assert_eq!(ObjectParser::parse_corner(&text("5"), 5, 0).unwrap(), corner(4));
    assert_eq!(ObjectParser::parse_corner(&text("0"), 5, 0).unwrap(), corner(0));
    assert_eq!(
        ObjectParser::parse_corner(&text("2/x/y"), 5, 0).unwrap(),
        FaceVertex { vertex: 1, texture: None, normal: None }
    );
    assert_eq!(
        ObjectParser::parse_corner(&text("2/9"), 5, 0).unwrap(),
        FaceVertex { vertex: 1, texture: Some(8), normal: None }
    );
}

#[test]
fn bad_corners_are_errors() {
    assert!(matches!(
        ObjectParser::parse_corner(&text("x/1/1"), 5, 4),
        Err(ObjError::ParseError(message)) if message == "Invalid vertex index"
    ));
    assert!(matches!(
        ObjectParser::parse_corner(&text(""), 5, 4),
        Err(ObjError::ParseError(message)) if message == "Invalid vertex index"
    ));
    assert!(matches!(
        ObjectParser::parse_corner(&text("-1"), 5, 4),
        Err(ObjError::ParseError(message)) if message == "Invalid vertex index"
    ));
    assert!(matches!(ObjectParser::parse_corner(&text("6"), 5, 4), Err(ObjError::InvalidIndex)));
    assert!(matches!(ObjectParser::parse_corner(&text("1"), 0, 4), Err(ObjError::InvalidIndex)));
    assert!(matches!(ObjectParser::parse_corner(&text("1//5"), 5, 4), Err(ObjError::InvalidIndex)));
}

#[test]
fn face_lines_add_triangles_to_the_group() {
    let parser = parser();
    let mut group = Group::new(text("g"));
    assert!(group.is_empty());
    parser.parse_face(&words("f 1 2 3 4"), &mut group, 4, 0).unwrap();
    assert_eq!(
        group.faces,
        vec![vec![corner(0), corner(1), corner(2)], vec![corner(0), corner(2), corner(3)]]
    );
    parser.parse_face(&words("f 2/1/1 3/2/1 4/3/1"), &mut group, 4, 1).unwrap();
    assert_eq!(group.faces.len(), 3);
    assert_eq!(group.faces[2][1], FaceVertex { vertex: 2, texture: Some(1), normal: Some(0) });
    assert!(!group.is_empty());
}

#[test]
fn bad_face_lines_leave_the_group_alone() {
    let parser = parser();
    let mut group = Group::new(text("g"));
    assert!(matches!(
        parser.parse_face(&words("f 1 2"), &mut group, 4, 0),
        Err(ObjError::ParseError(message)) if message == "Face needs at least 3 vertices"
    ));
    assert!(matches!(
        parser.parse_face(&words("f 1 2 9 x"), &mut group, 4, 0),
        Err(ObjError::InvalidIndex)
    ));
    assert!(matches!(
        parser.parse_face(&words("f 1 x 9"), &mut group, 4, 0),
        Err(ObjError::ParseError(message)) if message == "Invalid vertex index"
    ));
    assert!(group.is_empty());
}

#[test]
fn group_and_material_lines_take_the_rest_of_the_line() {
    let parser = parser();
    let group = parser.parse_group(&words("g  left   wing"), Some(text("steel"))).unwrap();
    assert_eq!(group.name, text("left wing"));
    assert_eq!(group.material, Some(text("steel")));
    assert!(group.faces.is_empty());
    assert_eq!(parser.parse_group(&words("g"), None).unwrap().name, text("unnamed"));
    assert_eq!(parser.parse_use_material(&words("usemtl dull red")).unwrap(), Some(text("dull red")));
    assert_eq!(parser.parse_use_material(&words("usemtl")).unwrap(), None);
    assert_eq!(parser.parse_material_lib(&words("mtllib a.mtl")).unwrap(), Some(text("a.mtl")));
    assert_eq!(parser.parse_material_lib(&words("mtllib")).unwrap(), None);
}

#[test]
fn vertex_lines_hand_their_numbers_back() {
    let parser = parser();
    let coordinates = parser.parse_vertex(&words("v 1.0 -2 3e4 1.0")).unwrap();
    assert_eq!((coordinates.x, coordinates.y, coordinates.z), (text("1.0"), text("-2"), text("3e4")));
    let normal = parser.parse_normal(&words("vn 0 1 0")).unwrap();
    assert_eq!((normal.x, normal.y, normal.z), (text("0"), text("1"), text("0")));
    assert!(matches!(
        parser.parse_vertex(&words("v 1 2")),
        Err(ObjError::ParseError(message)) if message == "Not enough coordinates for vertex"
    ));
    assert!(matches!(
        parser.parse_normal(&words("vn")),
        Err(ObjError::ParseError(message)) if message == "Not enough coordinates for normal"
    ));
}

#[test]
fn a_mesh_file_is_read_line_by_line() {
    let parser = parser();
    let mut state = parser.begin();
    assert_eq!(state.current_group.name, text("default"));
    let file = [
        "# a square and a triangle",
        "",
        "mtllib shapes.mtl",
        "v 0 0 0",
        "v 1 0 0",
        "v 1 1 0",
        "v 0 1 0",
        "vn 0 0 1",
        "s off",
        "f 1 2 3 4",
        "usemtl red",
        "g triangle",
        "f 1//1 2//1 3//1",
        "g empty",
        "usemtl",
    ];
    let mut libraries = Vec::new();
    for line in file {
        match parser.parse_line(&mut state, line.as_bytes()).unwrap() {
            LineAction::Done => {}
            LineAction::ReadVertex(numbers) => {
                let read = |number: &Vec<u8>| {
                    std::str::from_utf8(number).unwrap().parse::<f32>().unwrap().to_bits()
                };
                state.object.vertices.push(Vector3 {
                    x: read(&numbers.x),
                    y: read(&numbers.y),
                    z: read(&numbers.z),
                });
            }
            LineAction::ReadNormal(numbers) => {
                let read = |number: &Vec<u8>| {
                    std::str::from_utf8(number).unwrap().parse::<f32>().unwrap().to_bits()
                };
                state.object.normals.push(Vector3 {
                    x: read(&numbers.x),
                    y: read(&numbers.y),
                    z: read(&numbers.z),
                });
            }
            LineAction::LoadMaterials(name) => libraries.push(name),
        }
    }
    assert_eq!(libraries, vec![text("shapes.mtl")]);
    assert_eq!(state.current_material, None);
    let object = parser.finish(state);
    assert_eq!(object.vertices.len(), 4);
    assert_eq!(object.vertices[2], bits(1.0, 1.0, 0.0));
    assert_eq!(object.normals, vec![bits(0.0, 0.0, 1.0)]);
    assert_eq!(object.groups.len(), 2);
    assert_eq!(object.groups[0].name, text("default"));
    assert_eq!(object.groups[0].material, Some(text("red")));
    assert_eq!(object.groups[0].faces.len(), 2);
    assert_eq!(object.groups[1].name, text("triangle"));
    assert_eq!(object.groups[1].material, Some(text("red")));
    assert_eq!(
        object.groups[1].faces,
        vec![vec![
            FaceVertex { vertex: 0, texture: None, normal: Some(0) },
            FaceVertex { vertex: 1, texture: None, normal: Some(0) },
            FaceVertex { vertex: 2, texture: None, normal: Some(0) },
        ]]
    );
}

#[test]
fn a_bad_line_stops_the_reading() {
    let parser = parser();
    let mut state = parser.begin();
    assert!(matches!(
        parser.parse_line(&mut state, b"f 1 2 3"),
        Err(ObjError::InvalidIndex)
    ));
    assert!(matches!(parser.parse_line(&mut state, b"v 1 2"), Err(ObjError::ParseError(_))));
    assert!(matches!(parser.parse_line(&mut state, b"f 1"), Err(ObjError::ParseError(_))));
    assert!(state.current_group.is_empty());
    assert!(parser.finish(state).groups.is_empty());
}

#[test]
fn vertices_take_normals_and_colours() {
    let red = Material { kd: Some(bits(1.0, 0.0, 0.0)), ..Material::new(text("red")) };
    let pale = Material::new(text("pale"));
    let newer_red = Material { kd: Some(bits(0.5, 0.0, 0.0)), ..Material::new(text("red")) };
    let mut first = Group::new(text("first"));
    first.material = Some(text("red"));
    first.faces = vec![vec![corner(0), corner(1), corner(2)]];
    let mut second = Group::new(text("second"));
    second.material = Some(text("pale"));
    second.faces = vec![vec![corner(2), corner(3), corner(7)]];
    let mut third = Group::new(text("third"));
    third.material = Some(text("unknown"));
    let mut object = Object::new();
    object.vertices = (0..5).map(|i| bits(i as f32, 0.0, 0.0)).collect();
    object.normals = vec![bits(0.0, 1.0, 0.0), bits(0.0, 0.0, 1.0)];
    object.materials = vec![red, pale, newer_red];
    object.groups = vec![first, second, third];
    let (vertices, indices) = object.get_vertices_and_indices();
    assert_eq!(indices, vec![0, 1, 2, 2, 3, 7]);
    let grey = Vector3 { x: SEVEN_TENTHS_BITS, y: SEVEN_TENTHS_BITS, z: SEVEN_TENTHS_BITS };
    assert_eq!(grey, bits(0.7, 0.7, 0.7));
    let along_x = Vector3 { x: ONE_BITS, y: 0, z: 0 };
    assert_eq!(along_x, bits(1.0, 0.0, 0.0));
    assert_eq!(
        vertices,
        vec![
            Vertex { position: bits(0.0, 0.0, 0.0), normal: bits(0.0, 1.0, 0.0), color: bits(0.5, 0.0, 0.0) },
            Vertex { position: bits(1.0, 0.0, 0.0), normal: bits(0.0, 0.0, 1.0), color: bits(0.5, 0.0, 0.0) },
            Vertex { position: bits(2.0, 0.0, 0.0), normal: along_x, color: grey },
            Vertex { position: bits(3.0, 0.0, 0.0), normal: along_x, color: grey },
            Vertex { position: bits(4.0, 0.0, 0.0), normal: along_x, color: grey },
        ]
    );
    let empty = Object::new().get_vertices_and_indices();
    assert!(empty.0.is_empty() && empty.1.is_empty());
}

fn statement(line: &str) -> Option<MtlStatement> {
    MaterialParser::<()>::parse_line(line.as_bytes())
}

#[test]
fn material_lines_go_by_their_first_word() {
    assert!(matches!(
        statement("newmtl  shiny  red "),
        Some(MtlStatement::Line(MtlLine::NewMtl(name))) if name == text("shiny red")
    ));
    assert!(matches!(
        statement("  #  made by hand  "),
        Some(MtlStatement::Line(MtlLine::Comment(note))) if note == text("made by hand")
    ));
    assert!(matches!(
        statement("#"),
        Some(MtlStatement::Line(MtlLine::Comment(note))) if note.is_empty()
    ));
    assert!(matches!(
        statement("Kd 0.8 0.1 0.1"),
        Some(MtlStatement::Color { kind: ColorKind::Diffuse, red, green, blue })
            if (red.as_slice(), green.as_slice(), blue.as_slice()) == (&b"0.8"[..], &b"0.1"[..], &b"0.1"[..])
    ));
    assert!(matches!(statement("Ka 1 1 1"), Some(MtlStatement::Color { kind: ColorKind::Ambient, .. })));
    assert!(matches!(statement("Ks 1 1 1 9"), Some(MtlStatement::Color { kind: ColorKind::Specular, .. })));
    assert!(matches!(
        statement("Ns 96.0"),
        Some(MtlStatement::Scalar { kind: ScalarKind::SpecularExponent, value }) if value == text("96.0")
    ));
    assert!(matches!(statement("Ni 1.5"), Some(MtlStatement::Scalar { kind: ScalarKind::OpticalDensity, .. })));
    assert!(matches!(statement("d 0.5"), Some(MtlStatement::Scalar { kind: ScalarKind::Dissolve, .. })));
    assert!(matches!(statement("illum 2"), Some(MtlStatement::Line(MtlLine::Illum(2)))));
    assert!(matches!(statement("illum -1"), Some(MtlStatement::Line(MtlLine::Illum(-1)))));
    assert!(matches!(
        statement("map_Kd wood grain.png"),
        Some(MtlStatement::Line(MtlLine::MapKd(file))) if file == text("wood grain.png")
    ));
    assert!(matches!(statement("map_Ka a.png"), Some(MtlStatement::Line(MtlLine::MapKa(_)))));
    assert!(matches!(statement("map_Ks s.png"), Some(MtlStatement::Line(MtlLine::MapKs(_)))));
}

#[test]
fn material_lines_that_say_nothing() {
    for line in ["", "   ", "newmtl", "Kd 1 2", "Ns", "d", "illum", "illum two", "illum 2.5", "map_Kd", "Tf 1 1 1", "kd 1 1 1"] {
        assert!(statement(line).is_none(), "{:?}", line);
    }
}

#[test]
fn materials_are_gathered_from_their_lines() {
    let lines = vec![
        MtlLine::Kd(9, 9, 9),
        MtlLine::Comment(text("first")),
        MtlLine::NewMtl(text("red")),
        MtlLine::Ka(1, 2, 3),
        MtlLine::Kd(4, 5, 6),
        MtlLine::Ks(7, 8, 9),
        MtlLine::Ns(10),
        MtlLine::NewMtl(text("glass")),
        MtlLine::Ni(11),
        MtlLine::Dissolve(12),
        MtlLine::Illum(2),
        MtlLine::MapKa(text("a.png")),
        MtlLine::MapKd(text("d.png")),
        MtlLine::MapKs(text("s.png")),
    ];
    let materials = MaterialParser::<()>::parse(&lines).unwrap();
    assert_eq!(materials.len(), 2);
    let red = &materials[0];
    assert_eq!(red.name, text("red"));
    assert_eq!(red.ka, Some(Vector3 { x: 1, y: 2, z: 3 }));
    assert_eq!(red.kd, Some(Vector3 { x: 4, y: 5, z: 6 }));
    assert_eq!(red.ks, Some(Vector3 { x: 7, y: 8, z: 9 }));
    assert_eq!((red.ns, red.ni, red.dissolve, red.illum), (Some(10), None, None, None));
    let glass = &materials[1];
    assert_eq!(glass.name, text("glass"));
    assert_eq!((glass.kd, glass.ns), (None, None));
    assert_eq!((glass.ni, glass.dissolve, glass.illum), (Some(11), Some(12), Some(2)));
    assert_eq!(glass.map_ka, Some(text("a.png")));
    assert_eq!(glass.map_kd, Some(text("d.png")));
    assert_eq!(glass.map_ks, Some(text("s.png")));
    assert!(MaterialParser::<()>::parse(&vec![]).unwrap().is_empty());
    assert!(MaterialParser::<()>::parse(&vec![MtlLine::Kd(1, 1, 1)]).unwrap().is_empty());
    assert_eq!(copy_line(&lines[2]), MtlLine::NewMtl(text("red")));
}

#[test]
fn one_line_changes_one_thing() {
    let mut materials = Vec::new();
    let mut current = Material::new(text("a"));
    MaterialParser::<()>::apply(&mut materials, &mut current, MtlLine::Ns(5));
    assert_eq!(current.ns, Some(5));
    assert!(materials.is_empty());
    MaterialParser::<()>::apply(&mut materials, &mut current, MtlLine::NewMtl(text("b")));
    assert_eq!(materials.len(), 1);
    assert_eq!((materials[0].name.clone(), materials[0].ns), (text("a"), Some(5)));
    assert_eq!((current.name.clone(), current.ns), (text("b"), None));
}

#[test]
fn the_last_material_of_a_name_counts() {
    let old = Material { kd: Some(Vector3 { x: 1, y: 1, z: 1 }), ..Material::new(text("m")) };
    let other = Material::new(text("n"));
    let new = Material { kd: Some(Vector3 { x: 2, y: 2, z: 2 }), ..Material::new(text("m")) };
    let materials = vec![old, other, new];
    assert_eq!(Material::diffuse_of(&materials, &text("m")), Some(Vector3 { x: 2, y: 2, z: 2 }));
    assert_eq!(Material::diffuse_of(&materials, &text("n")), None);
    assert_eq!(Material::diffuse_of(&materials, &text("o")), None);
    assert_eq!(Material::diffuse_of(&vec![], &text("m")), None);
}

#[test]
fn parser_keeps_its_reader() {
    let parser = MaterialParser::new(std::io::Cursor::new(b"newmtl a\n".to_vec()));
    assert_eq!(parser.reader.into_inner(), b"newmtl a\n".to_vec());
}

fn tokens(text: &str) -> Vec<Token> {
    let mut lexer = Lexer::new(text.as_bytes().to_vec());
    let mut all = Vec::new();
    loop {
        let token = lexer.next_token();
        if token == Token::EOF {
            return all;
        }
        all.push(token);
    }
}

#[test]
fn lexer_reads_keywords_numbers_and_names() {
    assert_eq!(
        tokens("g left_wing\nv 1.5 -2 3e4\nvn 0 1 0\nf 1/2/3 4//5\n"),
        vec![
            Token::Group,
            Token::Identifier(text("left_wing")),
            Token::Vertice,
            Token::Number(text("1.5")),
            Token::Number(text("-2")),
            Token::Number(text("3e4")),
            Token::Normal,
            Token::Number(text("0")),
            Token::Number(text("1")),
            Token::Number(text("0")),
            Token::Face,
            Token::Number(text("1/2/3")),
            Token::Number(text("4//5")),
        ]
    );
    assert_eq!(tokens("/ vx /"), vec![Token::Slash, Token::Identifier(text("vx")), Token::Slash]);
    assert_eq!(tokens(""), vec![]);
    assert_eq!(tokens("  \n\t "), vec![]);
}

#[test]
fn lexer_reads_comments_to_the_end_of_the_line() {
    assert_eq!(
        tokens("# a box\nv 1 2 3 # corner"),
        vec![
            Token::Comment(text("# a box")),
            Token::Vertice,
            Token::Number(text("1")),
            Token::Number(text("2")),
            Token::Number(text("3")),
            Token::Comment(text("# corner")),
        ]
    );
}

#[test]
fn lexer_stops_at_a_byte_that_starts_no_token() {
    let mut lexer = Lexer::new(b"v ! 1".to_vec());
    assert_eq!(lexer.next_token(), Token::Vertice);
    assert_eq!(lexer.next_token(), Token::EOF);
    assert_eq!(lexer.next_token(), Token::EOF);
    assert_eq!(lexer.buffer_position, 2);
}

#[test]
fn lexer_peeks_without_taking() {
    let mut lexer = Lexer::new(b"f 7".to_vec());
    assert_eq!(lexer.peek_token(), Token::Face);
    assert_eq!(lexer.peek_token(), Token::Face);
    assert_eq!(lexer.next_token(), Token::Face);
    assert_eq!(lexer.peek_token(), Token::Number(text("7")));
    assert_eq!(lexer.next_token(), Token::Number(text("7")));
    assert_eq!(lexer.peek_token(), Token::EOF);
    assert_eq!(lexer.next_token(), Token::EOF);
    assert_eq!(copy_token(&Token::Identifier(text("a"))), Token::Identifier(text("a")));
}

#[test]
fn reading_errors_become_mesh_errors() {
    let missing = std::io::Error::new(std::io::ErrorKind::NotFound, "missing");
    assert!(matches!(
        ObjError::from(missing),
        ObjError::IoError(e) if e.kind() == std::io::ErrorKind::NotFound
    ));
}

#[test]
fn a_blank_material_knows_nothing() {
    let blank = Material::default();
    assert!(blank.name.is_empty());
    assert_eq!((blank.ka, blank.kd, blank.ks), (None, None, None));
    assert_eq!((blank.ns, blank.ni, blank.dissolve, blank.illum), (None, None, None, None));
    assert_eq!((blank.map_ka, blank.map_kd, blank.map_ks), (None, None, None));
}
