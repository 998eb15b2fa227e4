use euroc::descriptor::{field, number, resolution, scalar, vector};
use euroc::yaml::{is_loadable, parse_documents, MAX_ALIASES, MAX_NESTING};
use euroc::{load_yaml, Entry, Flaw, Key, Node, ReadError, Snapshot, Source};

fn text(s: &str) -> Node {
    Node::Text(s.to_string())
}

fn literal(s: &str) -> Node {
    Node::Real(s.to_string())
}

fn document(pairs: Vec<(&str, Node)>) -> Vec<Node> {
    vec![Node::Mapping(pairs.into_iter().map(|(k, v)| (text(k), v)).collect())]
}

#[test]
fn the_loader_gives_a_tree_of_nodes() {
    let docs = parse_documents("a: [1, 2.5, x, true, ~]\nb: {c: -3}\n").ok().unwrap();
    assert_eq!(docs.len(), 1);
    let a = docs[0].get("a").unwrap();
    match a {
        Node::Sequence(items) => {
            assert_eq!(items.len(), 5);
            assert!(matches!(&items[0], Node::Integer(1)));
            assert!(matches!(&items[1], Node::Real(s) if s == "2.5"));
            assert!(matches!(&items[2], Node::Text(s) if s == "x"));
            assert!(matches!(&items[3], Node::Boolean(true)));
            assert!(matches!(&items[4], Node::Null));
        }
        _ => panic!("no sequence"),
    }
    let c = docs[0].get("b").unwrap().get("c").unwrap();
    assert!(matches!(c, Node::Integer(-3)));
    assert!(docs[0].get("c").is_none());
    assert!(a.get("a").is_none());
}

#[test]
fn the_loader_reads_every_document() {
    assert_eq!(parse_documents("a: 1\n---\nb: 2\n").ok().unwrap().len(), 2);
    assert_eq!(parse_documents("").ok().unwrap().len(), 0);
    assert!(parse_documents("a: [1, 2").is_err());
}

#[test]
fn a_later_pair_replaces_an_earlier_one_of_its_key() {
    let docs = parse_documents("a: 1\nb: 2\na: 3\n").ok().unwrap();
    assert!(matches!(docs[0].get("a").unwrap(), Node::Integer(3)));
    match &docs[0] {
        Node::Mapping(pairs) => assert_eq!(pairs.len(), 2),
        _ => panic!("no mapping"),
    }
}

#[test]
fn the_first_pair_of_a_key_counts() {
    let node = Node::Mapping(vec![
        (Node::Integer(1), literal("0.1")),
        (text("k"), literal("0.2")),
        (text("k"), literal("0.3")),
    ]);
    assert!(matches!(node.get("k").unwrap(), Node::Real(s) if s == "0.2"));
    assert!(node.get("1").is_none());
}

#[test]
fn a_descriptor_is_read_from_its_file() {
    let files = Snapshot {
        entries: vec![
            Entry { path: "d".to_string(), data: None },
            Entry { path: "d/sensor.yaml".to_string(), data: Some(b"rate_hz: 200\n".to_vec()) },
            Entry { path: "d/bad.yaml".to_string(), data: Some(vec![b'a', 0x80]) },
            Entry { path: "d/open.yaml".to_string(), data: Some(b"a: {".to_vec()) },
        ],
    };
    let docs = load_yaml(&files, "d/sensor.yaml").unwrap();
    assert!(matches!(docs[0].get("rate_hz").unwrap(), Node::Integer(200)));
    assert_eq!(load_yaml(&files, "d/none.yaml").err(), Some(ReadError::Io(Source::Descriptor)));
    assert_eq!(load_yaml(&files, "d").err(), Some(ReadError::Io(Source::Descriptor)));
    assert_eq!(load_yaml(&files, "d/bad.yaml").err(), Some(ReadError::Io(Source::Descriptor)));
    assert_eq!(
        load_yaml(&files, "d/open.yaml").err(),
        Some(ReadError::Malformed(Flaw::Document))
    );
}

#[test]
fn the_extrinsics_stand_inside_their_field() {
    let inner = Node::Mapping(vec![(text("data"), Node::Sequence(vec![literal("1.0")]))]);
    let docs = document(vec![("T_BS", inner), ("data", Node::Null)]);
    assert!(matches!(field(&docs[0], Key::Extrinsics).unwrap(), Node::Sequence(_)));
    let docs = document(vec![("T_BS", Node::Sequence(vec![])), ("data", Node::Null)]);
    assert!(field(&docs[0], Key::Extrinsics).is_none());
    let values = vector(&document(vec![("T_BS", Node::Null)]), Key::Extrinsics, 16);
    assert_eq!(values.err(), Some(ReadError::Malformed(Flaw::Absent(Key::Extrinsics))));
}

#[test]
fn a_number_is_a_real_with_a_literal() {
    assert_eq!(number(&literal("1.5")).unwrap().as_str(), "1.5");
    assert_eq!(number(&literal("-.inf")).unwrap().as_str(), "-.inf");
    assert!(number(&literal("one")).is_none());
    assert!(number(&Node::Integer(1)).is_none());
    assert!(number(&text("1.5")).is_none());
}

#[test]
fn a_scalar_is_absent_misshapen_or_read() {
    let docs = document(vec![
        ("gyroscope_noise_density", literal("1.6968e-04")),
        ("gyroscope_random_walk", Node::Integer(2)),
    ]);
    assert_eq!(scalar(&docs, Key::GyroNoiseDensity).unwrap().as_str(), "1.6968e-04");
    assert_eq!(
        scalar(&docs, Key::GyroRandomWalk).err(),
        Some(ReadError::Malformed(Flaw::Shape(Key::GyroRandomWalk)))
    );
    assert_eq!(
        scalar(&docs, Key::AccelRandomWalk).err(),
        Some(ReadError::Malformed(Flaw::Absent(Key::AccelRandomWalk)))
    );
    assert_eq!(
        scalar(&Vec::new(), Key::AccelRandomWalk).err(),
        Some(ReadError::Malformed(Flaw::Document))
    );
    assert_eq!(
        scalar(&vec![Node::Bad], Key::AccelNoiseDensity).err(),
        Some(ReadError::Malformed(Flaw::Absent(Key::AccelNoiseDensity)))
    );
}

#[test]
fn a_vector_has_its_length() {
    let four = Node::Sequence(vec![literal("1.0"), literal("2.0"), literal("3.0"), literal("4.0")]);
    let docs = document(vec![("intrinsics", four)]);
    let values = vector(&docs, Key::Intrinsics, 4).unwrap();
    let texts: Vec<&str> = values.iter().map(|v| v.as_str()).collect();
    assert_eq!(texts, vec!["1.0", "2.0", "3.0", "4.0"]);
    assert_eq!(
        vector(&docs, Key::Intrinsics, 3).err(),
        Some(ReadError::Malformed(Flaw::Length(Key::Intrinsics)))
    );
    assert_eq!(
        vector(&docs, Key::Intrinsics, 5).err(),
        Some(ReadError::Malformed(Flaw::Length(Key::Intrinsics)))
    );
    let mixed = Node::Sequence(vec![literal("1.0"), Node::Integer(2), literal("3.0")]);
    let docs = document(vec![("intrinsics", mixed)]);
    assert_eq!(
        vector(&docs, Key::Intrinsics, 4).err(),
        Some(ReadError::Malformed(Flaw::Shape(Key::Intrinsics)))
    );
    let docs = document(vec![("intrinsics", Node::Sequence(vec![]))]);
    assert_eq!(vector(&docs, Key::Intrinsics, 0).unwrap().len(), 0);
}

#[test]
fn the_first_bad_pixel_count_decides() {
    let of = |items: Vec<Node>| resolution(&document(vec![("resolution", Node::Sequence(items))]));
    assert_eq!(of(vec![Node::Integer(752), Node::Integer(480)]), Ok((752, 480)));
    assert_eq!(
        of(vec![Node::Integer(-1), literal("1.5")]),
        Err(ReadError::OutOfRange(Key::Resolution))
    );
    assert_eq!(
        of(vec![literal("1.5"), Node::Integer(-1)]),
        Err(ReadError::Malformed(Flaw::Shape(Key::Resolution)))
    );
    assert_eq!(
        of(vec![Node::Integer(1), Node::Integer(2), Node::Integer(1 << 32)]),
        Err(ReadError::OutOfRange(Key::Resolution))
    );
    assert_eq!(of(vec![Node::Integer(1)]), Err(ReadError::Malformed(Flaw::Length(Key::Resolution))));
    assert_eq!(
        resolution(&document(vec![("resolution", Node::Integer(752))])),
        Err(ReadError::Malformed(Flaw::Shape(Key::Resolution)))
    );
    assert_eq!(
        resolution(&document(vec![])),
        Err(ReadError::Malformed(Flaw::Absent(Key::Resolution)))
    );
}

#[test]
fn a_descriptor_without_a_document_is_malformed() {
    let files = Snapshot {
        entries: vec![
            Entry { path: "empty.yaml".to_string(), data: Some(Vec::new()) },
            Entry { path: "comment.yaml".to_string(), data: Some(b"# nothing\n".to_vec()) },
            Entry { path: "null.yaml".to_string(), data: Some(b"---\n".to_vec()) },
        ],
    };
    assert_eq!(load_yaml(&files, "empty.yaml").err(), Some(ReadError::Malformed(Flaw::Document)));
    assert_eq!(
        load_yaml(&files, "comment.yaml").err(),
        Some(ReadError::Malformed(Flaw::Document))
    );
    assert_eq!(load_yaml(&files, "null.yaml").unwrap().len(), 1);
}

fn depth(node: &Node) -> usize {
    match node {
        Node::Sequence(items) => 1 + items.iter().map(depth).max().unwrap_or(0),
        Node::Mapping(pairs) => {
            1 + pairs.iter().map(|(k, v)| depth(k).max(depth(v))).max().unwrap_or(0)
        }
        _ => 0,
    }
}

#[test]
fn nesting_is_loaded_up_to_its_bound() {
    let text = format!("{}a", "- ".repeat(MAX_NESTING));
    assert!(is_loadable(text.as_bytes()));
    let docs = parse_documents(&text).unwrap();
    assert_eq!(depth(&docs[0]), MAX_NESTING);

    let text = format!("{}a", "- ".repeat(MAX_NESTING + 1));
    assert!(!is_loadable(text.as_bytes()));
    assert_eq!(parse_documents(&text).err(), Some(ReadError::Malformed(Flaw::Document)));

    let text = format!("{}a", "- ".repeat(40000));
    assert_eq!(parse_documents(&text).err(), Some(ReadError::Malformed(Flaw::Document)));
    let text = format!("{}a", "? ".repeat(40000));
    assert_eq!(parse_documents(&text).err(), Some(ReadError::Malformed(Flaw::Document)));
    let text = format!("{}a{}", "[".repeat(200), "]".repeat(200));
    assert_eq!(parse_documents(&text).err(), Some(ReadError::Malformed(Flaw::Document)));
    let mut text = String::new();
    for i in 0..5000 {
        text.push_str(&" ".repeat(i));
        text.push_str("a:\n");
    }
    assert_eq!(parse_documents(&text).err(), Some(ReadError::Malformed(Flaw::Document)));

    let files = Snapshot {
        entries: vec![Entry {
            path: "deep.yaml".to_string(),
            data: Some(format!("{}a", "- ".repeat(40000)).into_bytes()),
        }],
    };
    assert_eq!(load_yaml(&files, "deep.yaml").err(), Some(ReadError::Malformed(Flaw::Document)));
}

#[test]
fn no_nesting_is_deeper_than_its_marks() {
    let texts = [
        "a: {b: [1, {c: [2, [3]]}]}\n",
        "- - - a: 1\n      b:\n        - c\n",
        "? - a\n  - b\n: - c\n",
        "a:\n- b\n- c:\n  - d\n",
        "[a: b, c: [d: e]]\n",
        "x: &n [1, [2]]\ny: [*n, [*n]]\n",
    ];
    for text in texts {
        let marks = text
            .bytes()
            .enumerate()
            .filter(|(i, b)| {
                let next = text.as_bytes().get(i + 1).copied().unwrap_or(0);
                matches!(b, b'[' | b'{' | b'?' | b':')
                    || (*b == b'-' && matches!(next, b' ' | b'\t' | b'\n' | b'\r' | 0))
            })
            .count();
        let docs = parse_documents(text).unwrap();
        assert_eq!(docs.len(), 1, "{:?}", text);
        assert!(depth(&docs[0]) >= 2, "{:?}", text);
        assert!(depth(&docs[0]) <= marks, "{:?}", text);
    }
}

#[test]
fn marks_are_counted_where_they_can_open_a_collection() {
    let dashes = "-1.5e-3 ".repeat(1000);
    assert!(is_loadable(dashes.as_bytes()));
    assert!(is_loadable("---".as_bytes()));
    assert!(is_loadable(":".repeat(MAX_NESTING).as_bytes()));
    assert!(!is_loadable(":".repeat(MAX_NESTING + 1).as_bytes()));
    assert!(!is_loadable("?".repeat(MAX_NESTING + 1).as_bytes()));
    assert!(!is_loadable("{".repeat(MAX_NESTING + 1).as_bytes()));
    assert!(!is_loadable("-\t".repeat(MAX_NESTING + 1).as_bytes()));
    assert!(!is_loadable("-\r".repeat(MAX_NESTING + 1).as_bytes()));
    assert!(!is_loadable("-\n".repeat(MAX_NESTING + 1).as_bytes()));
    assert!(!is_loadable("-\0".repeat(MAX_NESTING + 1).as_bytes()));
    let mut end = "a-".repeat(MAX_NESTING + 5);
    assert!(is_loadable(end.as_bytes()));
    end = format!("{}-", "- ".repeat(MAX_NESTING - 1));
    assert!(is_loadable(end.as_bytes()));
    end = format!("{}-", "- ".repeat(MAX_NESTING));
    assert!(!is_loadable(end.as_bytes()));
    assert!(is_loadable(b""));
}

#[test]
fn aliases_are_loaded_up_to_their_bound() {
    let few = format!("a: &x [1, 2]\nb: [{}]\n", vec!["*x"; MAX_ALIASES].join(", "));
    assert!(is_loadable(few.as_bytes()));
    let docs = parse_documents(&few).unwrap();
    match docs[0].get("b").unwrap() {
        Node::Sequence(items) => {
            assert_eq!(items.len(), MAX_ALIASES);
            assert!(matches!(&items[0], Node::Sequence(inner) if inner.len() == 2));
        }
        _ => panic!("no sequence"),
    }
    let many = format!("a: &x [1, 2]\nb: [{}]\n", vec!["*x"; MAX_ALIASES + 1].join(", "));
    assert!(!is_loadable(many.as_bytes()));
    assert_eq!(parse_documents(&many).err(), Some(ReadError::Malformed(Flaw::Document)));
}
