use space_kit::ply::error::Error;
use space_kit::ply::header::{header, parse_element_statement, parse_format_statement, parse_property, Outcome};
use space_kit::ply::types::{Body, CountType, DataType, Element, ElementData, Format, FormatType, Header, Ply, Property};

fn assert_some<T>(r: &Option<T>) {
    assert!(r.is_some());
}

fn assert_none<T>(r: &Option<T>) {
    assert!(r.is_none());
}

#[test]
fn duplicate_properties() {
    let e = Element {
        name: "vertex".into(),
        count: 1,
        properties: vec![
            Property {
                name: "x".into(),
                count_data_type: None,
                data_type: DataType::Float32,
            },
            Property {
                name: "x".into(),
                count_data_type: None,
                data_type: DataType::Float32,
            },
        ],
    };

    assert!(e.has_duplicate_properties());
}

#[test]
fn nonduplicate_properties() {
    let e = Element {
        name: "vertex".into(),
        count: 1,
        properties: vec![
            Property {
                name: "x".into(),
                count_data_type: None,
                data_type: DataType::Float32,
            },
            Property {
                name: "y".into(),
                count_data_type: None,
                data_type: DataType::Float32,
            },
        ],
    };

    assert!(!e.has_duplicate_properties());
}

#[test]
fn duplicate_elements() {
    let h = Header {
        format: Format {
            format: FormatType::Ascii,
            version: vec![1, 0],
        },
        elements: vec![
            Element {
                name: "vertex".into(),
                count: 0,
                properties: Vec::new(),
            },
            Element {
                name: "vertex".into(),
                count: 0,
                properties: Vec::new(),
            },
        ],
    };

    assert!(h.has_duplicate_elements());
}

#[test]
fn nonduplicate_elements() {
    let h = Header {
        format: Format {
            format: FormatType::Ascii,
            version: vec![1, 0],
        },
        elements: vec![
            Element {
                name: "vertex".into(),
                count: 0,
                properties: Vec::new(),
            },
            Element {
                name: "face".into(),
                count: 0,
                properties: Vec::new(),
            },
        ],
    };

    assert!(!h.has_duplicate_elements());
}

#[test]
fn get_element() {
    let h = Header {
        format: Format {
            format: FormatType::Ascii,
            version: vec![1, 0],
        },
        elements: vec![
            Element {
                name: "vertex".into(),
                count: 0,
                properties: Vec::new(),
            },
            Element {
                name: "face".into(),
                count: 0,
                properties: Vec::new(),
            },
        ],
    };

    let r = h.element(&["vertex"]);
    assert_eq!(
        r,
        Some((
            0,
            &Element {
                name: "vertex".into(),
                count: 0,
                properties: Vec::new()
            }
        ))
    );
}

#[test]
fn get_scalar_property() {
    let e = Element {
        name: "vertex".into(),
        count: 1,
        properties: vec![
            Property {
                name: "x".into(),
                count_data_type: None,
                data_type: DataType::Float32,
            },
            Property {
                name: "y".into(),
                count_data_type: None,
                data_type: DataType::Float32,
            },
        ],
    };

    let r = e.scalar_property(&["y"]);
    assert_eq!(
        r,
        Some((
            1,
            &Property {
                name: "y".into(),
                count_data_type: None,
                data_type: DataType::Float32
            }
        ))
    );
}

#[test]
fn get_vector_property() {
    let e = Element {
        name: "vertex".into(),
        count: 1,
        properties: vec![
            Property {
                name: "x".into(),
                count_data_type: None,
                data_type: DataType::Float32,
            },
            Property {
                name: "vertex_index".into(),
                count_data_type: Some(CountType::Uint8),
                data_type: DataType::Float32,
            },
        ],
    };

    let r = e.vector_property(&["vertex_index"]);
    assert_eq!(
        r,
        Some((
            1,
            &Property {
                name: "vertex_index".into(),
                count_data_type: Some(CountType::Uint8),
                data_type: DataType::Float32
            }
        ))
    );
}


#[test]
fn ply_header_minimal() {
    let stream = b"ply format ascii 1.0 end_header ";
    let expected = Header {
        format: Format {
            format: FormatType::Ascii,
            version: vec![1, 0],
        },
        elements: Vec::new(),
    };

    let r = header(&stream[..]);
    assert_some(&r);
    let r = r.unwrap();
    assert_eq!(r.0, expected);
}

#[test]
fn ply_header_mixed_newlines() {
    let stream =
        b"ply\nformat ascii 1.0\r\nelement face 3\rproperty list uint8 uint32 vertex_indices\nend_header\r\n";

    assert_some(&header(&stream[..]));
}

#[test]
fn ply_header_element_scalar() {
    let stream = b"ply\nformat ascii 1.0\nelement vertex 3\nproperty float x\nend_header\n";
    let expected = Header {
        format: Format {
            format: FormatType::Ascii,
            version: vec![1, 0],
        },
        elements: vec![Element {
            name: "vertex".into(),
            count: 3,
            properties: vec![Property {
                name: "x".into(),
                count_data_type: None,
                data_type: DataType::Float32,
            }],
        }],
    };

    let r = header(&stream[..]);
    assert_some(&r);
    let r = r.unwrap();
    assert_eq!(r.0, expected);
}

#[test]
fn ply_header_element_vector() {
    let stream = b"ply\nformat ascii 1.0\nelement face 3\nproperty list uint8 uint32 vertex_indices\nend_header\n";
    let expected = Header {
        format: Format {
            format: FormatType::Ascii,
            version: vec![1, 0],
        },
        elements: vec![Element {
            name: "face".into(),
            count: 3,
            properties: vec![Property {
                name: "vertex_indices".into(),
                count_data_type: Some(CountType::Uint8),
                data_type: DataType::Uint32,
            }],
        }],
    };

    let r = header(&stream[..]);
    assert_some(&r);
    let r = r.unwrap();
    assert_eq!(r.0, expected);
}

#[test]
fn ply_header_element_scalar_vector() {
    let stream = b"ply\nformat ascii 1.0\nelement face 3\nproperty float x\nproperty list uint8 uint32 vertex_indices\nend_header\n";
    let expected = Header {
        format: Format {
            format: FormatType::Ascii,
            version: vec![1, 0],
        },
        elements: vec![Element {
            name: "face".into(),
            count: 3,
            properties: vec![
                Property {
                    name: "x".into(),
                    count_data_type: None,
                    data_type: DataType::Float32,
                },
                Property {
                    name: "vertex_indices".into(),
                    count_data_type: Some(CountType::Uint8),
                    data_type: DataType::Uint32,
                },
            ],
        }],
    };

    let r = header(&stream[..]);
    assert_some(&r);
    let r = r.unwrap();
    assert_eq!(r.0, expected);
}

#[test]
fn ply_header_element_vector_scalar() {
    let stream = b"ply\nformat ascii 1.0\nelement face 3\nproperty list uint8 uint32 vertex_indices\nproperty float x\nend_header\n";
    let expected = Header {
        format: Format {
            format: FormatType::Ascii,
            version: vec![1, 0],
        },
        elements: vec![Element {
            name: "face".into(),
            count: 3,
            properties: vec![
                Property {
                    name: "vertex_indices".into(),
                    count_data_type: Some(CountType::Uint8),
                    data_type: DataType::Uint32,
                },
                Property {
                    name: "x".into(),
                    count_data_type: None,
                    data_type: DataType::Float32,
                },
            ],
        }],
    };

    let r = header(&stream[..]);
    assert_some(&r);
    let r = r.unwrap();
    assert_eq!(r.0, expected);
}

#[test]
fn ply_header_comments() {
    let stream_a =
        b"ply\ncomment Hello, World!\nformat ascii 1.0\nelement vertex 3\nproperty float x\nend_header\n";
    let stream_b = b"ply\nformat ascii 1.0\ncomment How are you?\nelement vertex 3\nproperty float x\nend_header\n";
    let stream_c = b"ply\nformat ascii 1.0\nelement vertex 3\ncomment This is a special property\nproperty float x\nend_header\n";
    let stream_d =
        b"ply\nformat ascii 1.0\nelement vertex 3\nproperty float x\ncomment I am done now\nend_header\n";

    assert_some(&header(&stream_a[..]));
    assert_some(&header(&stream_b[..]));
    assert_some(&header(&stream_c[..]));
    assert_none(&header(&stream_d[..]));
}


#[test]
fn header_reports_the_bytes_it_takes_up() {
    let stream = b"ply\nformat ascii 1.0\nelement vertex 2\nproperty float x\nend_header\n1.0\n2.0\n";
    let (h, n) = header(&stream[..]).unwrap();
    assert_eq!(n, stream.len() - 8);
    assert_eq!(h.elements.len(), 1);
    assert_eq!(h.elements[0].count, 2);
}

#[test]
fn header_keywords_are_matched_as_prefixes() {
    let stream = b"ply\nformat ascii 1.0\nelement v 1\nproperty int a\nproperty int32 b\nproperty uchar c\nend_header\n";
    let (h, _) = header(&stream[..]).unwrap();
    let types: Vec<DataType> = h.elements[0].properties.iter().map(|p| p.data_type).collect();
    assert_eq!(types, vec![DataType::Uint32, DataType::Int32, DataType::Uint8]);
}

#[test]
fn header_refuses_other_versions_and_formats() {
    assert_none(&header(&b"ply format ascii 1.1 end_header "[..]));
    assert_none(&header(&b"ply format text 1.0 end_header "[..]));
    assert_none(&header(&b"format ascii 1.0 end_header "[..]));
    assert_none(&header(&b"ply format ascii 1.0 "[..]));
    let (h, _) = header(&b"ply format binary_little_endian 1.0 end_header "[..]).unwrap();
    assert_eq!(h.format.format, FormatType::BinaryLittleEndian);
    assert_eq!(h.format.version, vec![1, 0]);
}

#[test]
fn header_refuses_an_element_without_properties() {
    assert_none(&header(&b"ply\nformat ascii 1.0\nelement vertex 3\nend_header\n"[..]));
}

#[test]
fn header_refuses_a_count_that_does_not_fit() {
    assert_none(&header(&b"ply\nformat ascii 1.0\nelement vertex 99999999999999999999999\nproperty float x\nend_header\n"[..]));
}

#[test]
fn header_refuses_a_comment_with_a_lone_carriage_return() {
    assert_none(&header(&b"ply\nformat ascii 1.0\nelement vertex 3\ncomment a\rb\nproperty float x\nend_header\n"[..]));
}

fn sample_ply() -> Ply<i32> {
    let h = Header {
        format: Format { format: FormatType::Ascii, version: vec![1, 0] },
        elements: vec![
            Element {
                name: "vertex".into(),
                count: 2,
                properties: vec![Property { name: "x".into(), count_data_type: None, data_type: DataType::Int32 }],
            },
            Element {
                name: "face".into(),
                count: 1,
                properties: vec![Property { name: "vertex_index".into(), count_data_type: Some(CountType::Uint8), data_type: DataType::Int32 }],
            },
        ],
    };
    let body = Body {
        elements: vec![
            vec![ElementData { properties: vec![3] }, ElementData { properties: vec![4] }],
            vec![ElementData { properties: vec![0, 1, 2] }],
        ],
    };
    Ply { header: h, body }
}

#[test]
fn ply_generates_one_value_per_occurrence() {
    let p = sample_ply();
    let (e, _) = p.element(&["vertex", "vertices"]).unwrap();
    assert_eq!(e, 0);
    let xs = p.generate(e, |props| props[0] * 10);
    assert_eq!(xs, vec![30, 40]);
    let (f, el) = p.element(&["face"]).unwrap();
    let (idx, _) = el.vector_property(&["vertex_index", "vertex_indices"]).unwrap();
    assert_eq!(idx, 0);
    let lens = p.body.generate(f, |props| props.len());
    assert_eq!(lens, vec![3]);
    assert!(p.element(&["edge"]).is_none());
}

#[test]
fn ply_with_unique_names_passes_the_check() {
    let p = sample_ply();
    assert_eq!(p.clone().check_unique_names().unwrap(), p);
}

#[test]
fn ply_with_repeated_names_fails_the_check() {
    let mut p = sample_ply();
    p.header.elements[1].name = "vertex".into();
    assert!(matches!(p.check_unique_names(), Err(Error::DuplicateElements)));

    let mut p = sample_ply();
    let extra = p.header.elements[0].properties[0].clone();
    p.header.elements[0].properties.push(extra);
    let r = p.check_unique_names();
    assert!(matches!(r, Err(Error::DuplicateProperties)));
    assert_eq!(r.unwrap_err().message(), "Some property names appeared more than once in a single element");
}

#[test]
fn lookups_return_the_last_match() {
    let e = Element {
        name: "vertex".into(),
        count: 1,
        properties: vec![
            Property { name: "x".into(), count_data_type: None, data_type: DataType::Float32 },
            Property { name: "pos_x".into(), count_data_type: None, data_type: DataType::Float64 },
            Property { name: "x".into(), count_data_type: Some(CountType::Uint16), data_type: DataType::Int8 },
        ],
    };
    assert_eq!(e.scalar_property(&["x", "pos_x"]).map(|(i, _)| i), Some(1));
    assert_eq!(e.vector_property(&["x"]).map(|(i, _)| i), Some(2));
    assert_eq!(e.scalar_property(&["y"]), None);
    assert!(e.has_duplicate_properties());
}

#[test]
fn ply_format_statement() {
    let stream = b"format ascii 1.0\n";
    let expected = Format {
        format: FormatType::Ascii,
        version: vec![1, 0],
    };

    let r = parse_format_statement(&stream[..], 0);
    assert!(r.is_some());
    let r = r.unwrap();
    assert_eq!(r.0, expected);
}

#[test]
fn ply_unknown_version() {
    let stream = b"format ascii 1.1\n";

    let r = parse_format_statement(&stream[..], 0);
    assert!(r.is_none());
}

#[test]
fn ply_element_statement() {
    let stream = b"element some_name 10\n";
    let expected = (String::from("some_name"), 10usize);

    match parse_element_statement(&stream[..], 0) {
        Outcome::Done(r, n) => {
            assert_eq!(r, expected);
            assert_eq!(n, stream.len());
        },
        _ => panic!("the element statement was not parsed"),
    }
}

#[test]
fn ply_property_statement() {
    let stream = b"property uchar property_a\n";
    let expected = Property {
        name: "property_a".into(),
        count_data_type: None,
        data_type: DataType::Uint8,
    };

    match parse_property(&stream[..], 0) {
        Outcome::Done(r, _) => assert_eq!(r, expected),
        _ => panic!("the property statement was not parsed"),
    }

    let stream = b"property list uchar uchar property_a\n";
    let expected = Property {
        name: "property_a".into(),
        count_data_type: Some(CountType::Uint8),
        data_type: DataType::Uint8,
    };

    match parse_property(&stream[..], 0) {
        Outcome::Done(r, _) => assert_eq!(r, expected),
        _ => panic!("the property statement was not parsed"),
    }
}

#[test]
fn error_messages_name_what_went_wrong_and_the_path() {
    let e = Error::ParserError("cube.ply".into(), "unexpected end of input".into());
    assert_eq!(e.message(), "unexpected end of input: cube.ply");
    let e = Error::IoError("cube.ply".into(), std::io::Error::new(std::io::ErrorKind::Other, "no such file"));
    assert_eq!(e.message(), "no such file: cube.ply");
    assert_eq!(Error::DuplicateElements.message(), "Some element names appeared more than once");
}
