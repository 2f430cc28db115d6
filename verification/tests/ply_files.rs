use space_kit::ply::body::{ply, Number};
use space_kit::ply::header::{parse_comment_statement, parse_line_end, parse_unsigned, Outcome};
use space_kit::ply::types::Ply;

/// A cube with 24 vertices (position, texture coordinates and normal) and 12 triangles.
const CUBE: &str = "ply
format ascii 1.0
comment a unit cube with texture coordinates and normals
element vertex 24
property float x
property float y
property float z
property float s
property float t
property float nx
property float ny
property float nz
element face 12
property list uchar uint vertex_indices
end_header
-1.0 -1.0 1.0 0.0 0.0 0.0 0.0 1.0
1.0 -1.0 1.0 1.0 0.0 0.0 0.0 1.0
1.0 1.0 1.0 1.0 1.0 0.0 0.0 1.0
-1.0 1.0 1.0 0.0 1.0 0.0 0.0 1.0
1.0 -1.0 -1.0 0.0 0.0 0.0 0.0 -1.0
-1.0 -1.0 -1.0 1.0 0.0 0.0 0.0 -1.0
-1.0 1.0 -1.0 1.0 1.0 0.0 0.0 -1.0
1.0 1.0 -1.0 0.0 1.0 0.0 0.0 -1.0
1.0 -1.0 1.0 0.0 0.0 1.0 0.0 0.0
1.0 -1.0 -1.0 1.0 0.0 1.0 0.0 0.0
1.0 1.0 -1.0 1.0 1.0 1.0 0.0 0.0
1.0 1.0 1.0 0.0 1.0 1.0 0.0 0.0
-1.0 -1.0 -1.0 0.0 0.0 -1.0 0.0 0.0
-1.0 -1.0 1.0 1.0 0.0 -1.0 0.0 0.0
-1.0 1.0 1.0 1.0 1.0 -1.0 0.0 0.0
-1.0 1.0 -1.0 0.0 1.0 -1.0 0.0 0.0
-1.0 1.0 1.0 0.0 0.0 0.0 1.0 0.0
1.0 1.0 1.0 1.0 0.0 0.0 1.0 0.0
1.0 1.0 -1.0 1.0 1.0 0.0 1.0 0.0
-1.0 1.0 -1.0 0.0 1.0 0.0 1.0 0.0
-1.0 -1.0 -1.0 0.0 0.0 0.0 -1.0 0.0
1.0 -1.0 -1.0 1.0 0.0 0.0 -1.0 0.0
1.0 -1.0 1.0 1.0 1.0 0.0 -1.0 0.0
-1.0 -1.0 1.0 0.0 1.0 0.0 -1.0 0.0
3 0 1 2
3 0 2 3
3 4 5 6
3 4 6 7
3 8 9 10
3 8 10 11
3 12 13 14
3 12 14 15
3 16 17 18
3 16 18 19
3 20 21 22
3 20 22 23
";

/// A cube with 8 vertices and 6 quadrilateral faces, with comments in its header.
const EXAMPLE_ASCII: &str = "ply
format ascii 1.0
comment made by a modelling tool
comment this file is a cube
element vertex 8
property float x
property float y
property float z
element face 6
property list uchar int vertex_index
end_header
0 0 0
0 0 1
0 1 1
0 1 0
1 0 0
1 0 1
1 1 1
1 1 0
4 0 1 2 3
4 7 6 5 4
4 0 4 5 1
4 1 5 6 2
4 2 6 7 3
4 3 7 4 0
";

/// Reads a whole file and checks its names, as loading one from a path does.
fn load(input: &[u8]) -> Ply<Vec<Number>> {
    let (p, n) = ply(input).expect("the file is read");
    assert_eq!(n, input.len());
    p.check_unique_names().expect("names are unique")
}

/// The value of a float property that was written as text.
fn as_f32(input: &[u8], v: &[Number]) -> f32 {
    assert_eq!(v.len(), 1);
    match v[0] {
        Number::FloatText(a, b) => std::str::from_utf8(&input[a..b]).unwrap().parse::<f32>().unwrap(),
        _ => panic!("not a float written as text: {:?}", v),
    }
}

/// A vertex of a mesh.
#[allow(dead_code)]
struct Vertex {
    position: [f32; 3],
    tex_coord: [f32; 2],
    normal: [f32; 3],
}

/// The values of an integer list property.
fn as_u16s(v: &[Number]) -> Vec<u16> {
    v.iter()
        .map(|n| match n {
            Number::Unsigned(u) => *u as u16,
            _ => panic!("not an unsigned integer: {:?}", n),
        })
        .collect()
}

#[test]
fn ply_ascii() {
    let r = ply(CUBE.as_bytes());
    assert!(r.is_some());
}

#[test]
fn header() {
    assert!(space_kit::ply::header::header(EXAMPLE_ASCII.as_bytes()).is_some());
}

#[test]
fn generate_vertices() {
    let input = CUBE.as_bytes();
    let data = load(input);

    let (eidx, el) = data.element(&["vertex", "vertices"]).unwrap();
    let (pos_x_idx, _) = el.scalar_property(&["x", "pos_x"]).unwrap();
    let (pos_y_idx, _) = el.scalar_property(&["y", "pos_y"]).unwrap();
    let (pos_z_idx, _) = el.scalar_property(&["z", "pos_z"]).unwrap();
    let (tex_u_idx, _) = el.scalar_property(&["s", "u", "tex_u"]).unwrap();
    let (tex_v_idx, _) = el.scalar_property(&["t", "v", "tex_v"]).unwrap();
    let (norm_x_idx, _) = el.scalar_property(&["nx", "norm_x"]).unwrap();
    let (norm_y_idx, _) = el.scalar_property(&["ny", "norm_y"]).unwrap();
    let (norm_z_idx, _) = el.scalar_property(&["nz", "norm_z"]).unwrap();

    let vertices = data.generate(eidx, |props| Vertex {
        position: [
            as_f32(input, &props[pos_x_idx]),
            as_f32(input, &props[pos_y_idx]),
            as_f32(input, &props[pos_z_idx]),
        ],
        tex_coord: [as_f32(input, &props[tex_u_idx]), as_f32(input, &props[tex_v_idx])],
        normal: [
            as_f32(input, &props[norm_x_idx]),
            as_f32(input, &props[norm_y_idx]),
            as_f32(input, &props[norm_z_idx]),
        ],
    });

    assert_eq!(vertices.len(), 24);
}

#[test]
fn generate_indices() {
    let data = load(CUBE.as_bytes());

    let (eidx, el) = data.element(&["face", "faces"]).unwrap();
    let (idx_idx, _) = el.vector_property(&["vertex_indices", "vertex_index"]).unwrap();

    let faces = data.generate(eidx, |props| as_u16s(&props[idx_idx]));

    let indices: Vec<u16> = faces.iter().flatten().cloned().collect();

    assert_eq!(faces.len(), 12);
    assert_eq!(indices.len(), 12 * 3);
}

#[test]
fn ply_comment_statement() {
    let stream = b"comment Hello, World!\n";
    let expected = String::from("Hello, World!");

    match parse_comment_statement(&stream[..], 0) {
        Outcome::Done(text, n) => {
            assert_eq!(text, expected);
            assert_eq!(n, stream.len());
        }
        _ => panic!("the comment statement is not read"),
    }
}

#[test]
fn a_comment_with_bytes_that_are_not_utf8_is_read_lossily() {
    let stream = b"comment caf\xe9\r\nelement";
    match parse_comment_statement(&stream[..], 0) {
        Outcome::Done(text, n) => {
            assert_eq!(text, "caf\u{fffd}");
            assert_eq!(n, 14);
        }
        _ => panic!("the comment statement is not read"),
    }
}

#[test]
fn a_comment_without_a_line_end_is_refused() {
    assert!(matches!(parse_comment_statement(&b"comment open"[..], 0), Outcome::Committed));
    assert!(matches!(parse_comment_statement(&b"element x 1\n"[..], 0), Outcome::Empty));
}

#[test]
fn is_eol() {
    assert!(matches!(parse_line_end(&b"\r\n"[..], 0), Outcome::Done((), 2)));
    assert!(matches!(parse_line_end(&b"\n"[..], 0), Outcome::Done((), 1)));
}

#[test]
fn a_lone_carriage_return_is_no_line_end() {
    assert!(matches!(parse_line_end(&b"\rx"[..], 0), Outcome::Committed));
    assert!(matches!(parse_line_end(&b"x\n"[..], 0), Outcome::Empty));
}

#[test]
fn unsigned_int() {
    let r = parse_unsigned(&b"10"[..], 0);
    assert!(matches!(r, Outcome::Done(_, _)));
    if let Outcome::Done(v, n) = r {
        assert_eq!(v, 10usize);
        assert_eq!(n, 2);
    }
}

#[test]
fn an_unsigned_number_that_does_not_fit_is_refused() {
    assert!(matches!(parse_unsigned(&b"99999999999999999999999"[..], 0), Outcome::Committed));
    assert!(matches!(parse_unsigned(&b"x1"[..], 0), Outcome::Empty));
}

#[test]
fn a_read_file_has_the_shape_of_its_header() {
    let (p, _) = ply(CUBE.as_bytes()).unwrap();
    assert_eq!(p.body.elements.len(), p.header.elements.len());
    for (occurrences, element) in p.body.elements.iter().zip(p.header.elements.iter()) {
        assert_eq!(occurrences.len(), element.count);
        for record in occurrences {
            assert_eq!(record.properties.len(), element.properties.len());
            for (value, property) in record.properties.iter().zip(element.properties.iter()) {
                if property.count_data_type.is_none() {
                    assert_eq!(value.len(), 1);
                    assert!(matches!(value[0], Number::FloatText(_, _)));
                } else {
                    assert_eq!(value.len(), 3);
                    assert!(value.iter().all(|n| matches!(n, Number::Unsigned(_))));
                }
            }
        }
    }
}
