use fields::args::{Args, FieldArgs};
use fields::definition::{Attribute, Form, Member};
use fields::error::{Error, Key, Location, Reason};
use fields::path::Path;
use fields::token::{Delimiter, Token};
use fields::vis::Vis;

fn word(text: &str) -> Token {
    Token::Ident(text.to_string())
}

fn punct(ch: char) -> Token {
    Token::Punct(ch, false)
}

fn sep() -> [Token; 2] {
    [Token::Punct(':', true), Token::Punct(':', false)]
}

fn text(value: &str) -> Token {
    Token::Str(value.to_string())
}

fn list(inner: Vec<Token>) -> Token {
    Token::Group(Delimiter::Parenthesis, inner)
}

fn path(leading_colon: bool, segments: &[&str]) -> Path {
    Path {
        leading_colon,
        segments: segments.iter().map(|segment| segment.to_string()).collect(),
    }
}

fn written(name: &str, form: Form, tokens: Vec<Token>) -> Attribute {
    Attribute {
        path: path(false, &[name]),
        form,
        tokens,
    }
}

fn named(name: &str, tokens: Vec<Token>) -> Attribute {
    written(name, Form::List, tokens)
}

fn annotation(tokens: Vec<Token>) -> Attribute {
    named("fields", tokens)
}

fn spelled(segments: &[&str]) -> Vec<Token> {
    let mut tokens = Vec::new();
    for (i, segment) in segments.iter().enumerate() {
        if i > 0 {
            tokens.extend(sep());
        }
        tokens.push(word(segment));
    }
    tokens
}

fn configuration(
    reason: Reason,
    member: Option<usize>,
    attribute: usize,
    option: usize,
    entry: Option<usize>,
) -> Error {
    Error::Configuration(
        reason,
        Location {
            member,
            attribute,
            option,
            entry,
        },
    )
}

fn member(vis: Vis) -> Member {
    Member {
        attrs: Vec::new(),
        vis,
        ident: Some("member".to_string()),
        ty: vec![word("u8")],
    }
}

#[test]
fn visibility_entries() {
    assert_eq!(Vis::parse_value(&vec![word("priv")]), Ok(Vis::Private));
    assert_eq!(Vis::parse_value(&vec![word("pub")]), Ok(Vis::Public));
    for scope in ["crate", "self", "super"] {
        assert_eq!(
            Vis::parse_value(&vec![word("pub"), list(vec![word(scope)])]),
            Ok(Vis::Restricted(path(false, &[scope])))
        );
    }
    let mut inner = vec![word("in")];
    inner.extend(spelled(&["crate", "outer", "inner"]));
    assert_eq!(
        Vis::parse_value(&vec![word("pub"), list(inner)]),
        Ok(Vis::Restricted(path(false, &["crate", "outer", "inner"])))
    );
    let mut inner = vec![word("in")];
    inner.extend(sep());
    inner.extend(spelled(&["outer"]));
    assert_eq!(
        Vis::parse_value(&vec![word("pub"), list(inner)]),
        Ok(Vis::Restricted(path(true, &["outer"])))
    );
    assert_eq!(
        Vis::parse_value(&vec![word("pub"), list(vec![word("in"), word("crate")])]),
        Ok(Vis::Restricted(path(false, &["crate"])))
    );
}

#[test]
fn unknown_visibility_entries() {
    let refused: Vec<Vec<Token>> = vec![
        vec![],
        vec![word("protected")],
        vec![word("public")],
        vec![word("r#priv")],
        vec![text("pub")],
        vec![punct('+')],
        vec![word("priv"), word("priv")],
        vec![word("priv"), list(vec![word("crate")])],
        vec![word("pub"), word("crate")],
        vec![word("pub"), list(vec![])],
        vec![word("pub"), list(vec![word("outer")])],
        vec![word("pub"), list(vec![word("crate"), word("crate")])],
        vec![word("pub"), list(vec![word("in")])],
        vec![word("pub"), list(vec![word("in"), punct('+')])],
        vec![word("pub"), list(vec![word("in"), word("fn")])],
        vec![word("pub"), list(vec![word("in"), word("in"), word("a")])],
        vec![word("pub"), list(vec![word("Self")])],
        vec![
            word("pub"),
            Token::Group(Delimiter::Bracket, vec![word("crate")]),
        ],
        vec![word("pub"), list(vec![word("crate")]), word("pub")],
    ];
    for entry in refused {
        assert_eq!(
            Vis::parse_value(&entry),
            Err(Reason::UnknownVisibility),
            "{entry:?}"
        );
    }
}

#[test]
fn paths() {
    assert_eq!(Path::parse(&spelled(&["Debug"])), Some(path(false, &["Debug"])));
    assert_eq!(
        Path::parse(&spelled(&["serde", "Serialize"])),
        Some(path(false, &["serde", "Serialize"]))
    );
    let mut tokens = sep().to_vec();
    tokens.extend(spelled(&["core", "fmt", "Debug"]));
    assert_eq!(
        Path::parse(&tokens),
        Some(path(true, &["core", "fmt", "Debug"]))
    );
    // The second colon of a separator may be joined to what follows it.
    assert_eq!(
        Path::parse(&vec![
            word("a"),
            Token::Punct(':', true),
            Token::Punct(':', true),
            word("b")
        ]),
        Some(path(false, &["a", "b"]))
    );

    // A keyword is no segment, unless it is one of the four that name a
    // place or the own type, or written raw.
    for segments in [
        vec!["crate", "a"],
        vec!["self"],
        vec!["super", "super", "a"],
        vec!["Self", "A"],
        vec!["r#fn", "r#struct"],
        vec!["union"],
    ] {
        assert_eq!(
            Path::parse(&spelled(&segments)),
            Some(path(false, &segments)),
            "{segments:?}"
        );
    }
    for segments in [
        vec!["fn"],
        vec!["a", "struct"],
        vec!["in", "a"],
        vec!["a", "_", "b"],
        vec!["try"],
        vec!["crate", "pub"],
    ] {
        assert_eq!(Path::parse(&spelled(&segments)), None, "{segments:?}");
    }

    let refused: Vec<Vec<Token>> = vec![
        vec![],
        sep().to_vec(),
        vec![word("a"), word("b")],
        vec![word("a"), Token::Punct(':', true), Token::Punct(':', false)],
        vec![word("a"), Token::Punct(':', false), Token::Punct(':', false), word("b")],
        vec![word("a"), Token::Punct(':', true), word("b")],
        vec![word("a"), punct('<'), word("T"), punct('>')],
        vec![text("a")],
        vec![list(vec![word("a")])],
        vec![
            word("a"),
            Token::Punct(':', true),
            Token::Punct(':', false),
            Token::Punct(':', true),
            Token::Punct(':', false),
            word("b"),
        ],
    ];
    for tokens in refused {
        assert_eq!(Path::parse(&tokens), None, "{tokens:?}");
    }
}

#[test]
fn path_is_written_as_it_was_read() {
    for (leading_colon, segments) in [
        (false, vec!["Debug"]),
        (true, vec!["core", "fmt", "Debug"]),
        (false, vec!["a", "b"]),
    ] {
        let path = path(leading_colon, &segments);
        let mut tokens = vec![word("before")];
        path.write(&mut tokens);
        assert_eq!(tokens[0], word("before"));
        assert_eq!(Path::parse(&tokens[1..].to_vec()), Some(path.clone()));
        assert!(path.same(&path.duplicate()));
    }
    let mut tokens = Vec::new();
    path(true, &["a", "b"]).write(&mut tokens);
    assert_eq!(
        tokens,
        vec![
            Token::Punct(':', true),
            Token::Punct(':', false),
            word("a"),
            Token::Punct(':', true),
            Token::Punct(':', false),
            word("b")
        ]
    );
    assert!(path(false, &["fields"]).is_ident("fields"));
    assert!(!path(true, &["fields"]).is_ident("fields"));
    assert!(!path(false, &["fields", "fields"]).is_ident("fields"));
    assert!(!path(false, &["field"]).is_ident("fields"));
    assert!(!path(false, &["a", "b"]).same(&path(false, &["a", "c"])));
    assert!(!path(false, &["a", "b"]).same(&path(true, &["a", "b"])));
    assert!(!path(false, &["a", "b"]).same(&path(false, &["a"])));
}

#[test]
fn record_options() {
    assert_eq!(Args::from_attributes(&vec![]), Ok(Args::new()));
    assert_eq!(
        Args::new(),
        Args {
            name: None,
            derive: vec![],
            visibility: vec![]
        }
    );
    assert_eq!(
        Args::from_attributes(&vec![annotation(vec![])]),
        Ok(Args::new())
    );

    let mut derive = spelled(&["Debug"]);
    derive.push(punct(','));
    derive.extend(spelled(&["serde", "Serialize"]));
    derive.push(punct(','));
    let attributes = vec![
        named("derive", vec![word("Fields")]),
        annotation(vec![
            word("name"),
            punct('='),
            text("MyFields"),
            punct(','),
            word("visibility"),
            list(vec![
                word("pub"),
                punct(','),
                word("pub"),
                list(vec![word("crate")]),
            ]),
        ]),
        named("allow", vec![word("unused")]),
        annotation(vec![
            word("derive"),
            list(derive),
            punct(','),
            word("visibility"),
            list(vec![word("priv")]),
            punct(','),
        ]),
        annotation(vec![word("derive"), list(spelled(&["Clone"]))]),
        annotation(vec![word("visibility"), list(vec![])]),
    ];
    assert_eq!(
        Args::from_attributes(&attributes),
        Ok(Args {
            name: Some("MyFields".to_string()),
            derive: vec![
                path(false, &["Debug"]),
                path(false, &["serde", "Serialize"]),
                path(false, &["Clone"])
            ],
            visibility: vec![
                Vis::Public,
                Vis::Restricted(path(false, &["crate"])),
                Vis::Private
            ],
        })
    );
}

#[test]
fn faulty_record_options() {
    let cases: Vec<(Vec<Token>, Reason, usize, Option<usize>)> = vec![
        (vec![word("rename")], Reason::UnknownOption, 0, None),
        (vec![word("flatten")], Reason::UnknownOption, 0, None),
        (vec![text("name")], Reason::UnknownOption, 0, None),
        (vec![punct(',')], Reason::UnknownOption, 0, None),
        (
            vec![word("name"), punct('='), text("A"), punct(','), punct(',')],
            Reason::UnknownOption,
            4,
            None,
        ),
        (vec![word("name")], Reason::MalformedValue(Key::Name), 0, None),
        (
            vec![word("name"), punct('=')],
            Reason::MalformedValue(Key::Name),
            0,
            None,
        ),
        (
            vec![word("name"), punct('='), word("A")],
            Reason::MalformedValue(Key::Name),
            0,
            None,
        ),
        (
            vec![word("name"), list(vec![text("A")])],
            Reason::MalformedValue(Key::Name),
            0,
            None,
        ),
        (
            vec![word("name"), punct('='), text("A"), text("B")],
            Reason::MalformedValue(Key::Name),
            0,
            None,
        ),
        (
            vec![
                word("name"),
                punct('='),
                text("A"),
                punct(','),
                word("name"),
                punct('='),
                text("B"),
            ],
            Reason::DuplicateOption(Key::Name),
            4,
            None,
        ),
        (vec![word("derive")], Reason::MalformedValue(Key::Derive), 0, None),
        (
            vec![
                word("derive"),
                punct('='),
                Token::Group(Delimiter::Bracket, spelled(&["Debug"])),
            ],
            Reason::MalformedValue(Key::Derive),
            0,
            None,
        ),
        (
            vec![
                word("derive"),
                Token::Group(Delimiter::Bracket, spelled(&["Debug"])),
            ],
            Reason::MalformedValue(Key::Derive),
            0,
            None,
        ),
        (
            vec![
                word("derive"),
                list(vec![word("Debug"), punct(','), punct(','), word("Clone")]),
            ],
            Reason::MalformedPath,
            0,
            Some(2),
        ),
        (
            vec![
                word("name"),
                punct('='),
                text("A"),
                punct(','),
                word("derive"),
                list(vec![word("Debug"), punct(','), word("Clone"), text("x")]),
            ],
            Reason::MalformedPath,
            4,
            Some(2),
        ),
        (
            vec![word("visibility")],
            Reason::MalformedValue(Key::Visibility),
            0,
            None,
        ),
        (
            vec![word("visibility"), punct('='), word("pub")],
            Reason::MalformedValue(Key::Visibility),
            0,
            None,
        ),
        (
            vec![word("visibility"), list(vec![word("pub"), word("priv")])],
            Reason::UnknownVisibility,
            0,
            Some(0),
        ),
        (
            vec![
                word("visibility"),
                list(vec![
                    word("pub"),
                    list(vec![word("crate")]),
                    punct(','),
                    word("pub"),
                    list(vec![word("everywhere")]),
                ]),
            ],
            Reason::UnknownVisibility,
            0,
            Some(3),
        ),
    ];
    for (tokens, reason, option, entry) in cases {
        let attributes = vec![named("doc", vec![]), annotation(tokens.clone())];
        assert_eq!(
            Args::from_attributes(&attributes),
            Err(configuration(reason, None, 1, option, entry)),
            "{tokens:?}"
        );
    }
    // A name may be given once over all annotations.
    assert_eq!(
        Args::from_attributes(&vec![
            annotation(vec![word("name"), punct('='), text("A")]),
            annotation(vec![word("name"), punct('='), text("A")]),
        ]),
        Err(configuration(
            Reason::DuplicateOption(Key::Name),
            None,
            1,
            0,
            None
        ))
    );
}

#[test]
fn member_options() {
    assert_eq!(
        FieldArgs::from_attributes(&vec![], 0),
        Ok(FieldArgs { flatten: false })
    );
    assert_eq!(
        FieldArgs::from_attributes(&vec![annotation(vec![]), named("flatten", vec![])], 0),
        Ok(FieldArgs { flatten: false })
    );
    assert_eq!(
        FieldArgs::from_attributes(
            &vec![
                named("serde", vec![word("flatten")]),
                annotation(vec![word("flatten"), punct(',')])
            ],
            3
        ),
        Ok(FieldArgs { flatten: true })
    );
    let cases: Vec<(Vec<Token>, Reason, usize)> = vec![
        (vec![word("name")], Reason::UnknownOption, 0),
        (vec![punct(',')], Reason::UnknownOption, 0),
        (
            vec![word("flatten"), punct(','), word("skip")],
            Reason::UnknownOption,
            2,
        ),
        (
            vec![word("flatten"), punct('='), word("true")],
            Reason::MalformedValue(Key::Flatten),
            0,
        ),
        (
            vec![word("flatten"), list(vec![])],
            Reason::MalformedValue(Key::Flatten),
            0,
        ),
        (
            vec![word("flatten"), punct(','), word("flatten")],
            Reason::DuplicateOption(Key::Flatten),
            2,
        ),
    ];
    for (tokens, reason, option) in cases {
        assert_eq!(
            FieldArgs::from_attributes(&vec![annotation(tokens.clone())], 5),
            Err(configuration(reason, Some(5), 0, option, None)),
            "{tokens:?}"
        );
    }
    assert_eq!(
        FieldArgs::from_attributes(
            &vec![annotation(vec![word("flatten")]), annotation(vec![word("flatten")])],
            2
        ),
        Err(configuration(
            Reason::DuplicateOption(Key::Flatten),
            Some(2),
            1,
            0,
            None
        ))
    );
}

#[test]
fn generated_name() {
    let mut args = Args::new();
    assert_eq!(args.name("Test"), "TestField");
    assert_eq!(args.name("MyStruct"), "MyStructField");
    args.name = Some("MyFields".to_string());
    assert_eq!(args.name("Test"), "MyFields");
}

#[test]
fn filter_on_members() {
    let mut args = Args::new();
    let crate_wide = Vis::Restricted(path(false, &["crate"]));
    let parent_wide = Vis::Restricted(path(false, &["super"]));
    for vis in [Vis::Private, Vis::Public, crate_wide.clone()] {
        assert!(args.filter(&member(vis)));
    }
    args.visibility = vec![Vis::Public, crate_wide.clone()];
    assert!(!args.filter(&member(Vis::Private)));
    assert!(args.filter(&member(Vis::Public)));
    assert!(args.filter(&member(crate_wide.clone())));
    assert!(!args.filter(&member(parent_wide.clone())));
    assert!(!args.filter(&member(Vis::Restricted(path(true, &["crate"])))));
    args.visibility = vec![Vis::Private];
    assert!(args.filter(&member(Vis::Private)));
    assert!(!args.filter(&member(Vis::Public)));
    assert!(!args.filter(&member(crate_wide.clone())));
    assert!(crate_wide.same(&crate_wide.duplicate()));
    assert!(!crate_wide.same(&parent_wide));
    assert!(!Vis::Public.same(&Vis::Private));
}

#[test]
fn attributes_of_the_generated_type() {
    let mut args = Args::new();
    assert_eq!(
        args.attributes("Test"),
        vec![
            punct('#'),
            Token::Group(
                Delimiter::Bracket,
                vec![word("doc"), punct('='), text("A field of [`Test`].")]
            ),
            punct('#'),
            Token::Group(Delimiter::Bracket, vec![word("derive"), list(vec![])]),
        ]
    );
    args.derive = vec![path(false, &["Debug"]), path(true, &["serde", "Serialize"])];
    assert_eq!(
        args.attributes("MyStruct"),
        vec![
            punct('#'),
            Token::Group(
                Delimiter::Bracket,
                vec![word("doc"), punct('='), text("A field of [`MyStruct`].")]
            ),
            punct('#'),
            Token::Group(
                Delimiter::Bracket,
                vec![
                    word("derive"),
                    list(vec![
                        word("Debug"),
                        punct(','),
                        Token::Punct(':', true),
                        Token::Punct(':', false),
                        word("serde"),
                        Token::Punct(':', true),
                        Token::Punct(':', false),
                        word("Serialize"),
                    ])
                ]
            ),
        ]
    );
}

#[test]
fn diagnostics() {
    let at = Location {
        member: None,
        attribute: 0,
        option: 0,
        entry: None,
    };
    let on_member = Location {
        member: Some(0),
        ..at
    };
    let cases = [
        (
            Error::Name,
            "no identifier can be made of the name of this record",
        ),
        (
            Error::Member(3),
            "no identifier can be made of the name of this member",
        ),
        (
            Error::Configuration(Reason::NotAList, at),
            "expected `fields(...)`",
        ),
        (
            Error::Configuration(Reason::UnknownOption, at),
            "supported fields are `name`, `derive` and `visibility`",
        ),
        (
            Error::Configuration(Reason::UnknownOption, on_member),
            "expected supported field `flatten`",
        ),
        (
            Error::Configuration(Reason::MalformedValue(Key::Name), at),
            "expected `name = \"<identifier>\"`",
        ),
        (
            Error::Configuration(Reason::MalformedValue(Key::Derive), at),
            "expected `derive(<path>, ...)`",
        ),
        (
            Error::Configuration(Reason::MalformedValue(Key::Visibility), at),
            "expected `visibility(<entry>, ...)`",
        ),
        (
            Error::Configuration(Reason::MalformedValue(Key::Flatten), on_member),
            "expected `flatten` alone",
        ),
        (
            Error::Configuration(Reason::DuplicateOption(Key::Name), at),
            "`name` is specified multiple times",
        ),
        (
            Error::Configuration(Reason::DuplicateOption(Key::Flatten), on_member),
            "`flatten` is specified multiple times",
        ),
        (
            Error::Configuration(Reason::MalformedPath, at),
            "expected a path",
        ),
        (
            Error::Configuration(Reason::UnknownVisibility, at),
            "expected `priv`, `pub` or `pub(<scope-path>)`",
        ),
    ];
    for (error, message) in cases {
        assert_eq!(error.message(), message);
    }
    assert_eq!(Key::Derive.name(), "derive");
    assert_eq!(Key::Visibility.name(), "visibility");
}

#[test]
fn generated_name_must_be_an_identifier() {
    for name in ["MyFields", "my_fields", "_x", "X1", "r#type", "Stra\u{df}e"] {
        assert_eq!(
            Args::from_attributes(&vec![annotation(vec![word("name"), punct('='), text(name)])]),
            Ok(Args {
                name: Some(name.to_string()),
                derive: vec![],
                visibility: vec![]
            }),
            "{name:?}"
        );
    }
    for name in [
        "1abc", "my name", "", " ", " Name", "Name ", "Na-me", "A::B", "A B", "struct", "Self",
        "_", "42", "\"Name\"", "Name<T>", "Name // named", "r#", "r#crate", "$crate", "'a",
        "\u{feff}Name",
    ] {
        assert_eq!(
            Args::from_attributes(&vec![
                named("doc", vec![]),
                annotation(vec![
                    word("derive"),
                    list(vec![]),
                    punct(','),
                    word("name"),
                    punct('='),
                    text(name)
                ])
            ]),
            Err(configuration(
                Reason::MalformedValue(Key::Name),
                None,
                1,
                3,
                None
            )),
            "{name:?}"
        );
    }
    // A name that is no identifier is refused before one that comes twice.
    assert_eq!(
        Args::from_attributes(&vec![annotation(vec![
            word("name"),
            punct('='),
            text("A"),
            punct(','),
            word("name"),
            punct('='),
            text("1abc"),
        ])]),
        Err(configuration(
            Reason::MalformedValue(Key::Name),
            None,
            0,
            4,
            None
        ))
    );
}

#[test]
fn annotation_forms() {
    // The name alone holds no option, whatever tokens come with it.
    assert_eq!(
        Args::from_attributes(&vec![
            written("fields", Form::Word, vec![]),
            written("fields", Form::Word, vec![word("bogus")]),
        ]),
        Ok(Args::new())
    );
    assert_eq!(
        FieldArgs::from_attributes(&vec![written("fields", Form::Word, vec![])], 0),
        Ok(FieldArgs { flatten: false })
    );
    // An assigned value is no list of options, even where it reads like one.
    assert_eq!(
        FieldArgs::from_attributes(
            &vec![
                annotation(vec![word("flatten")]),
                written("fields", Form::Assigned, vec![word("flatten")])
            ],
            4
        ),
        Err(configuration(Reason::NotAList, Some(4), 1, 0, None))
    );
    assert_eq!(
        FieldArgs::from_attributes(&vec![written("fields", Form::Assigned, vec![])], 0),
        Err(configuration(Reason::NotAList, Some(0), 0, 0, None))
    );
    assert_eq!(
        Args::from_attributes(&vec![
            named("doc", vec![]),
            annotation(vec![]),
            written("fields", Form::Assigned, vec![text("name")]),
        ]),
        Err(configuration(Reason::NotAList, None, 2, 0, None))
    );
    // Attributes of another name are passed over in every form.
    assert_eq!(
        Args::from_attributes(&vec![
            written("doc", Form::Assigned, vec![text("fields")]),
            written("field", Form::Assigned, vec![word("flatten")]),
        ]),
        Ok(Args::new())
    );
}

#[test]
fn name_is_taken_by_what_it_was_found_to_be() {
    let given = |name: Option<&str>| Args {
        name: name.map(|name| name.to_string()),
        derive: vec![path(false, &["Debug"])],
        visibility: vec![Vis::Public],
    };
    assert_eq!(
        given(None).with_name(&"Part".to_string(), true),
        Ok(given(Some("Part")))
    );
    // What counts is what the text was found to be, not how it looks.
    assert_eq!(
        given(None).with_name(&"1abc".to_string(), true),
        Ok(given(Some("1abc")))
    );
    assert_eq!(
        given(None).with_name(&"Part".to_string(), false),
        Err((Reason::MalformedValue(Key::Name), None))
    );
    assert_eq!(
        given(Some("First")).with_name(&"Part".to_string(), true),
        Err((Reason::DuplicateOption(Key::Name), None))
    );
    assert_eq!(
        given(Some("First")).with_name(&"Part".to_string(), false),
        Err((Reason::MalformedValue(Key::Name), None))
    );
}

#[test]
fn derived_capability_must_be_a_path_of_segments() {
    assert_eq!(
        Args::from_attributes(&vec![annotation(vec![
            word("derive"),
            list(vec![word("Debug"), punct(','), word("fn")])
        ])]),
        Err(configuration(Reason::MalformedPath, None, 0, 0, Some(2)))
    );
    assert_eq!(
        Args::from_attributes(&vec![annotation(vec![
            word("visibility"),
            list(vec![word("pub"), list(vec![word("in"), word("fn")])])
        ])]),
        Err(configuration(Reason::UnknownVisibility, None, 0, 0, Some(0)))
    );
}
