use dylink::attr::AttrData;
use dylink::attr::AttrExpr;
use dylink::attr::AttrLit;
use dylink::attr::LinkType;
use dylink::attr::MacroErrorKind;
use dylink::symbol::check_nul_terminated;
use dylink::symbol::terminate;

fn path(p: &str) -> AttrExpr {
    AttrExpr::Path(p.to_string())
}

fn assign_str(left: &str, s: &str) -> AttrExpr {
    AttrExpr::Assign(left.to_string(), AttrLit::Str(s.to_string()))
}

fn assign_bool(left: &str, b: bool) -> AttrExpr {
    AttrExpr::Assign(left.to_string(), AttrLit::Bool(b))
}

fn assign_ident(left: &str, id: &str) -> AttrExpr {
    AttrExpr::Assign(left.to_string(), AttrLit::Ident(id.to_string()))
}

#[test]
fn parses_vulkan_policy() {
    let data = AttrData::try_from(&vec![path("vulkan")]).unwrap();
    assert!(matches!(data.link_ty, LinkType::Vulkan));
    assert!(!data.strip);
    assert!(data.linker.is_none());
}

#[test]
fn parses_single_name_policy() {
    let data = AttrData::try_from(&vec![assign_str("name", "libc.so.6")]).unwrap();
    match &data.link_ty {
        LinkType::General(libs) => assert_eq!(libs, &vec!["libc.so.6".to_string()]),
        other => panic!("unexpected policy: {:?}", other),
    }
}

#[test]
fn parses_full_option_set() {
    let data = AttrData::try_from(&vec![
        AttrExpr::Call(
            "any".to_string(),
            vec![
                assign_str("name", "libvulkan.so.1"),
                assign_str("name", "libvulkan.so"),
            ],
        ),
        assign_bool("strip", true),
        assign_ident("linker", "SelfLoader"),
    ])
    .unwrap();
    match &data.link_ty {
        LinkType::General(libs) => assert_eq!(
            libs,
            &vec!["libvulkan.so.1".to_string(), "libvulkan.so".to_string()]
        ),
        other => panic!("unexpected policy: {:?}", other),
    }
    assert!(data.strip);
    assert_eq!(data.linker.as_deref(), Some("SelfLoader"));
}

#[test]
fn parses_library_reuse_and_link_name() {
    // The shape of a declaration that reuses a user-declared aggregate under
    // another symbol name.
    let data = AttrData::try_from(&vec![
        assign_ident("library", "KERNEL32"),
        assign_str("link_name", "SetLastError"),
    ])
    .unwrap();
    match &data.link_ty {
        LinkType::Library(binding) => assert_eq!(binding, "KERNEL32"),
        other => panic!("unexpected policy: {:?}", other),
    }
    assert_eq!(data.link_name.as_deref(), Some("SetLastError"));

    let errs = AttrData::try_from(&vec![
        assign_ident("library", "KERNEL32"),
        assign_str("link_name", "a"),
        assign_str("link_name", "b"),
    ])
    .unwrap_err();
    assert_eq!(errs, vec![MacroErrorKind::LinkNameAlreadyDefined]);

    let errs = AttrData::try_from(&vec![
        assign_ident("library", "KERNEL32"),
        AttrExpr::Assign("library".to_string(), AttrLit::Str("LIB".to_string())),
    ])
    .unwrap_err();
    assert_eq!(errs, vec![MacroErrorKind::ExpectedIdentifier]);
}

#[test]
fn empty_any_is_rejected() {
    let errs = AttrData::try_from(&vec![AttrExpr::Call("any".to_string(), vec![])]).unwrap_err();
    assert!(errs.contains(&MacroErrorKind::EmptyAnyList));
}

#[test]
fn missing_linkage_is_rejected() {
    let errs = AttrData::try_from(&vec![assign_bool("strip", true)]).unwrap_err();
    assert_eq!(errs, vec![MacroErrorKind::NoLinkageSpecified]);
}

#[test]
fn duplicate_linkage_is_rejected() {
    let errs =
        AttrData::try_from(&vec![path("vulkan"), assign_str("name", "liba.so")]).unwrap_err();
    assert_eq!(errs, vec![MacroErrorKind::LinkageAlreadyDefined]);

    let errs = AttrData::try_from(&vec![
        assign_str("name", "liba.so"),
        AttrExpr::Call("any".to_string(), vec![assign_str("name", "libb.so")]),
    ])
    .unwrap_err();
    assert_eq!(errs, vec![MacroErrorKind::LinkageAlreadyDefined]);
}

#[test]
fn malformed_arguments_are_diagnosed() {
    let errs = AttrData::try_from(&vec![
        path("wayland"),
        AttrExpr::Assign("name".to_string(), AttrLit::Bool(true)),
        AttrExpr::Assign("strip".to_string(), AttrLit::Str("yes".to_string())),
        AttrExpr::Assign("linker".to_string(), AttrLit::Other),
        AttrExpr::Call("all".to_string(), vec![]),
        AttrExpr::Other,
    ])
    .unwrap_err();
    assert_eq!(
        errs,
        vec![
            MacroErrorKind::ExpectedKeyword,
            MacroErrorKind::ExpectedStringLiteral,
            MacroErrorKind::ExpectedBooleanLiteral,
            MacroErrorKind::ExpectedIdentifier,
            MacroErrorKind::ExpectedAnyFunction,
            MacroErrorKind::ExpectedKeyword,
            MacroErrorKind::NoLinkageSpecified,
        ]
    );
}

#[test]
fn any_arguments_are_each_checked() {
    // A wrongly-named assignment still contributes its string (and is
    // diagnosed); the non-assignment and the non-string are diagnosed too.
    let errs = AttrData::try_from(&vec![AttrExpr::Call(
        "any".to_string(),
        vec![
            assign_str("names", "liba.so"),
            AttrExpr::Path("liba".to_string()),
            AttrExpr::Assign("name".to_string(), AttrLit::Bool(false)),
        ],
    )])
    .unwrap_err();
    assert_eq!(
        errs,
        vec![
            MacroErrorKind::ExpectedNameIdentifier,
            MacroErrorKind::ExpectedNameAssignment,
            MacroErrorKind::ExpectedStringLiteral,
        ]
    );
}

#[test]
fn round_trip_preserves_the_description() {
    let originals = vec![
        AttrData {
            strip: false,
            link_ty: LinkType::Vulkan,
            linker: None,
            link_name: None,
        },
        AttrData {
            strip: true,
            link_ty: LinkType::General(vec!["libc.so.6".to_string()]),
            linker: Some("SelfLoader".to_string()),
            link_name: Some("floor".to_string()),
        },
        AttrData {
            strip: false,
            link_ty: LinkType::General(vec![
                "libvulkan.so.1".to_string(),
                "libvulkan.so".to_string(),
            ]),
            linker: None,
            link_name: None,
        },
        AttrData {
            strip: true,
            link_ty: LinkType::Library("KERNEL32".to_string()),
            linker: None,
            link_name: Some("SetLastError".to_string()),
        },
    ];
    for original in originals {
        let reparsed = AttrData::try_from(&original.to_args()).unwrap();
        assert_eq!(reparsed.strip, original.strip);
        assert_eq!(reparsed.linker, original.linker);
        assert_eq!(reparsed.link_name, original.link_name);
        match (&reparsed.link_ty, &original.link_ty) {
            (LinkType::Vulkan, LinkType::Vulkan) => {}
            (LinkType::General(a), LinkType::General(b)) => assert_eq!(a, b),
            (LinkType::Library(a), LinkType::Library(b)) => assert_eq!(a, b),
            (a, b) => panic!("policies differ: {:?} vs {:?}", a, b),
        }
    }
}

#[test]
fn renders_link_policies() {
    let mut text = String::new();
    LinkType::Vulkan.to_tokens(&mut text);
    assert_eq!(text, "LinkType::Vulkan");

    let mut text = String::new();
    LinkType::General(vec!["liba.so".to_string(), "libb.so".to_string()]).to_tokens(&mut text);
    assert_eq!(
        text,
        "LinkType::Normal(vec![\"liba.so\".to_owned(),\"libb.so\".to_owned(),])"
    );
}

#[test]
fn diagnostics_have_wordings() {
    assert_eq!(
        MacroErrorKind::ExpectedKeyword.message(),
        "Expected `vulkan`, `any`, `strip`, or `name`."
    );
    assert_eq!(
        MacroErrorKind::EmptyAnyList.message(),
        "No arguments detected."
    );
}

#[test]
fn symbol_names_must_be_nul_terminated() {
    assert!(check_nul_terminated(&b"floor\0".to_vec()));
    assert!(!check_nul_terminated(&b"floor".to_vec()));
    assert!(!check_nul_terminated(&b"".to_vec()));
    assert!(!check_nul_terminated(&b"fl\0oor\0".to_vec()));

    assert_eq!(terminate(&b"floor".to_vec()), Some(b"floor\0".to_vec()));
    assert_eq!(terminate(&b"fl\0oor".to_vec()), None);
}
