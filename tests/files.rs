use nechto::vfs::{join, Error, IntoPathSpec, PathSpec, VirtualFs};

fn vfs() -> VirtualFs {
    let mut vfs = VirtualFs::new();
    vfs.add_search_path("$data", "/assets");
    vfs.add_search_path("$build", "build/");
    vfs
}

#[test]
fn resolves_prefixed_path() {
    assert_eq!(vfs().resolve_path_spec("$data/foo.bin").unwrap(), "/assets/foo.bin");
    assert_eq!(vfs().resolve_path_spec("$build/script/init.js".to_string()).unwrap(), "build/script/init.js");
}

#[test]
fn path_without_separator_is_ill_formed() {
    match vfs().resolve_path_spec("nosep") {
        Err(Error::IllFormedPathSpec(s)) => assert_eq!(s, "nosep"),
        other => panic!("unexpected: {:?}", other),
    }
}

#[test]
fn unknown_prefix_is_reported() {
    match vfs().resolve_path_spec("$cache/x") {
        Err(Error::PathPrefixNotFound(p)) => assert_eq!(p, "$cache"),
        other => panic!("unexpected: {:?}", other),
    }
}

#[test]
fn later_search_path_replaces_earlier() {
    let mut v = vfs();
    v.add_search_path("$data", "/other");
    assert_eq!(v.resolve_path_spec("$data/a/b").unwrap(), "/other/a/b");
}

#[test]
fn path_spec_splits_at_first_separator() {
    let spec = PathSpec::parse("$data/dir/file").unwrap();
    assert_eq!(spec.split(), ("$data", "dir/file"));
    assert_eq!(spec.as_str(), "$data/dir/file");
    assert!("plain".as_path_spec().is_err());
    assert_eq!(spec.as_path_spec().unwrap().as_str(), "$data/dir/file");
}

#[test]
fn join_rules() {
    assert_eq!(join("/assets", "foo.bin"), "/assets/foo.bin");
    assert_eq!(join("/assets/", "foo.bin"), "/assets/foo.bin");
    assert_eq!(join("", "foo.bin"), "foo.bin");
    assert_eq!(join("/assets", "/abs"), "/abs");
}
