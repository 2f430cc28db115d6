use space_kit::ply::body::{parse_element_data, parse_property_value, ply, Number};
use space_kit::ply::types::{CountType, DataType, Element, FormatType, Property};

/// The expected value of a property: integers, or floats compared with their encodings.
#[derive(Debug, Clone, PartialEq)]
enum Expected {
    Ints(Vec<i64>),
    Uints(Vec<u64>),
    F32(Vec<f32>),
    F64(Vec<f64>),
}

fn matches(input: &[u8], got: &[Number], expected: &Expected) -> bool {
    match expected {
        Expected::Ints(v) => got.len() == v.len() && got.iter().zip(v).all(|(g, e)| *g == Number::Signed(*e)),
        Expected::Uints(v) => got.len() == v.len() && got.iter().zip(v).all(|(g, e)| *g == Number::Unsigned(*e)),
        Expected::F32(v) => got.len() == v.len() && got.iter().zip(v).all(|(g, e)| match g {
            Number::FloatText(a, b) => std::str::from_utf8(&input[*a..*b]).unwrap().parse::<f32>().unwrap() == *e,
            Number::FloatBits(bits) => f32::from_bits(*bits as u32) == *e,
            _ => false,
        }),
        Expected::F64(v) => got.len() == v.len() && got.iter().zip(v).all(|(g, e)| match g {
            Number::FloatText(a, b) => std::str::from_utf8(&input[*a..*b]).unwrap().parse::<f64>().unwrap() == *e,
            Number::FloatBits(bits) => f64::from_bits(*bits) == *e,
            _ => false,
        }),
    }
}

fn check(format: FormatType, cases: Vec<(&[u8], Option<CountType>, DataType, Expected)>) {
    for (i, c, t, o) in cases {
        let p = Property { name: "p".into(), count_data_type: c, data_type: t };
        let r = parse_property_value(i, 0, format, &p);
        assert!(r.is_some(), "{:?}", o);
        let (v, _) = r.unwrap();
        assert!(matches(i, &v, &o), "{:?} {:?}", v, o);
    }
}

#[test]
fn property_ascii() {
    let expected = vec![
        (&b"-10 "[..], None, DataType::Int8, Expected::Ints(vec![-10])),
        (&b"10 "[..], None, DataType::Uint8, Expected::Uints(vec![10])),
        (&b"-300 "[..], None, DataType::Int16, Expected::Ints(vec![-300])),
        (&b"300 "[..], None, DataType::Uint16, Expected::Uints(vec![300])),
        (&b"-70000"[..], None, DataType::Int32, Expected::Ints(vec![-70000])),
        (&b"70000"[..], None, DataType::Uint32, Expected::Uints(vec![70000])),
        (&b"-7.12"[..], None, DataType::Float32, Expected::F32(vec![-7.12])),
        (&b"-7.12"[..], None, DataType::Float64, Expected::F64(vec![-7.12])),
        (&b"3 -55 1 100 "[..], Some(CountType::Uint8), DataType::Int8, Expected::Ints(vec![-55, 1, 100])),
        (&b"1 55"[..], Some(CountType::Uint8), DataType::Uint8, Expected::Uints(vec![55])),
        (&b"3 -400 6000 -1 "[..], Some(CountType::Uint16), DataType::Int16, Expected::Ints(vec![-400, 6000, -1])),
        (&b"3 400 6000 1 "[..], Some(CountType::Uint32), DataType::Uint16, Expected::Uints(vec![400, 6000, 1])),
        (&b"3 -400 70000 -1 "[..], Some(CountType::Uint8), DataType::Int32, Expected::Ints(vec![-400, 70000, -1])),
        (&b"3 400 70000 1 "[..], Some(CountType::Uint16), DataType::Uint32, Expected::Uints(vec![400, 70000, 1])),
        (&b"3 -1.2 5.0 0 "[..], Some(CountType::Uint32), DataType::Float32, Expected::F32(vec![-1.2, 5.0, 0.0])),
        (&b"3 -1.2 5.0 0 "[..], Some(CountType::Uint8), DataType::Float64, Expected::F64(vec![-1.2, 5.0, 0.0])),
    ];
    check(FormatType::Ascii, expected);
}

#[test]
fn property_big_endian() {
    let expected = vec![
        (&[0xf6][..], None, DataType::Int8, Expected::Ints(vec![-10])),
        (&[0x0a][..], None, DataType::Uint8, Expected::Uints(vec![10])),
        (&[0xfe, 0xd4][..], None, DataType::Int16, Expected::Ints(vec![-300])),
        (&[0x01, 0x2c][..], None, DataType::Uint16, Expected::Uints(vec![300])),
        (&[0xff, 0xfe, 0xee, 0x90][..], None, DataType::Int32, Expected::Ints(vec![-70000])),
        (&[0x00, 0x01, 0x11, 0x70][..], None, DataType::Uint32, Expected::Uints(vec![70000])),
        (&[0xc0, 0xe3, 0xd7, 0x0a][..], None, DataType::Float32, Expected::F32(vec![-7.12])),
        (&[0xc0, 0x1c, 0x7a, 0xe1, 0x47, 0xae, 0x14, 0x7b][..], None, DataType::Float64, Expected::F64(vec![-7.12])),
        (&[0x03, 0xc9, 0x01, 0x64][..], Some(CountType::Uint8), DataType::Int8, Expected::Ints(vec![-55, 1, 100])),
        (&[0x00, 0x01, 0x37][..], Some(CountType::Uint16), DataType::Uint8, Expected::Uints(vec![55])),
    ];
    check(FormatType::BinaryBigEndian, expected);
}

#[test]
fn property_little_endian() {
    let expected = vec![
        (&[0xf6][..], None, DataType::Int8, Expected::Ints(vec![-10])),
        (&[0x0a][..], None, DataType::Uint8, Expected::Uints(vec![10])),
        (&[0xd4, 0xfe][..], None, DataType::Int16, Expected::Ints(vec![-300])),
        (&[0x2c, 0x01][..], None, DataType::Uint16, Expected::Uints(vec![300])),
        (&[0x90, 0xee, 0xfe, 0xff][..], None, DataType::Int32, Expected::Ints(vec![-70000])),
        (&[0x70, 0x11, 0x01, 0x00][..], None, DataType::Uint32, Expected::Uints(vec![70000])),
        (&[0x0a, 0xd7, 0xe3, 0xc0][..], None, DataType::Float32, Expected::F32(vec![-7.12])),
        (&[0x7b, 0x14, 0xae, 0x47, 0xe1, 0x7a, 0x1c, 0xc0][..], None, DataType::Float64, Expected::F64(vec![-7.12])),
        (&[0x03, 0xc9, 0x01, 0x64][..], Some(CountType::Uint8), DataType::Int8, Expected::Ints(vec![-55, 1, 100])),
        (&[0x01, 0x00, 0x37][..], Some(CountType::Uint16), DataType::Uint8, Expected::Uints(vec![55])),
    ];
    check(FormatType::BinaryLittleEndian, expected);
}

#[test]
fn element_data_ascii() {
    let element = Element {
        name: "vertex".into(),
        count: 2,
        properties: vec![
            Property { name: "x".into(), count_data_type: None, data_type: DataType::Float32 },
            Property { name: "y".into(), count_data_type: Some(CountType::Uint8), data_type: DataType::Float32 },
        ],
    };

    let input = &b"100.1 3 1.0 2.2 3.0\n50.0 3 0.0 -1.0 50.0"[..];
    let (r, n) = parse_element_data(input, 0, FormatType::Ascii, &element).unwrap();
    assert_eq!(n, input.len());
    assert_eq!(r.len(), 2);
    assert!(matches(input, &r[0].properties[0], &Expected::F32(vec![100.1])));
    assert!(matches(input, &r[0].properties[1], &Expected::F32(vec![1.0, 2.2, 3.0])));
    assert!(matches(input, &r[1].properties[0], &Expected::F32(vec![50.0])));
    assert!(matches(input, &r[1].properties[1], &Expected::F32(vec![0.0, -1.0, 50.0])));
}

#[test]
fn text_integers_out_of_range_are_refused() {
    let p = Property { name: "p".into(), count_data_type: None, data_type: DataType::Int8 };
    assert!(parse_property_value(&b"-128 "[..], 0, FormatType::Ascii, &p).is_none());
    assert!(parse_property_value(&b"127 "[..], 0, FormatType::Ascii, &p).is_some());
    let p = Property { name: "p".into(), count_data_type: None, data_type: DataType::Uint8 };
    assert!(parse_property_value(&b"256 "[..], 0, FormatType::Ascii, &p).is_none());
    assert!(parse_property_value(&b"-1 "[..], 0, FormatType::Ascii, &p).is_none());
    let p = Property { name: "p".into(), count_data_type: Some(CountType::Uint8), data_type: DataType::Uint8 };
    assert!(parse_property_value(&b"3 1 2"[..], 0, FormatType::Ascii, &p).is_none());
    assert!(parse_property_value(&[0x02, 0x01][..], 0, FormatType::BinaryBigEndian, &p).is_none());
}

#[test]
fn a_whole_ascii_file_is_read() {
    let input = b"ply\nformat ascii 1.0\ncomment a square\nelement vertex 4\nproperty float x\nproperty float y\nelement face 1\nproperty list uchar int vertex_indices\nend_header\n0 0\n1 0\n1 1\n0 1\n4 0 1 2 3\n";
    let (p, n) = ply(&input[..]).unwrap();
    assert_eq!(n, input.len());
    assert_eq!(p.header.elements.len(), 2);
    assert_eq!(p.body.elements[0].len(), 4);
    assert_eq!(p.body.elements[1].len(), 1);
    assert_eq!(p.body.elements[1][0].properties[0], vec![Number::Unsigned(0), Number::Unsigned(1), Number::Unsigned(2), Number::Unsigned(3)]);
    let (e, _) = p.element(&["face"]).unwrap();
    let sizes = p.generate(e, |props| props[0].len());
    assert_eq!(sizes, vec![4]);
}

#[test]
fn a_whole_binary_file_is_read() {
    let mut input = b"ply\nformat binary_little_endian 1.0\nelement vertex 2\nproperty short x\nproperty uint y\nend_header\n".to_vec();
    input.extend_from_slice(&[0xff, 0xff, 0x01, 0x00, 0x00, 0x00, 0x02, 0x00, 0xff, 0xff, 0xff, 0xff]);
    let (p, n) = ply(&input[..]).unwrap();
    assert_eq!(n, input.len());
    assert_eq!(p.body.elements[0][0].properties, vec![vec![Number::Signed(-1)], vec![Number::Unsigned(1)]]);
    assert_eq!(p.body.elements[0][1].properties, vec![vec![Number::Signed(2)], vec![Number::Unsigned(0xffff_ffff)]]);
}

#[test]
fn a_body_that_is_too_short_is_refused() {
    let input = b"ply\nformat ascii 1.0\nelement vertex 3\nproperty float x\nend_header\n1.0\n2.0\n";
    assert!(ply(&input[..]).is_none());
}
