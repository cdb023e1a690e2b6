use camino::{StripPrefixError, Utf8Component, Utf8Path, Utf8PathBuf};
use proptest::arbitrary::any;
use proptest::test_runner::TestRunner;
use std::path::{Component, Path, PathBuf};

fn components_of(s: &str) -> Vec<Utf8Component<'_>> {
    let mut it = Utf8Path::new(s).components();
    let mut out = Vec::new();
    while let Some(c) = it.next() {
        out.push(c);
    }
    out
}

fn ancestors_of(s: &str) -> Vec<&str> {
    let mut it = Utf8Path::new(s).ancestors();
    let mut out = Vec::new();
    while let Some(p) = it.next() {
        out.push(p.as_str());
    }
    out
}

const SAMPLES: [&str; 34] = [
    "", "/", "//", "a", "a/", "a//b", "a/./b", "./a", ".", "./", "./.", "..", "../a", "a/..",
    "/a/b", "/a/b/", "//a", "/./a", "a/b/.", ".a", ".a/b", "foo.tar.gz", "dir/foo.", "a/.bashrc",
    "x/y/z.txt/", "a/b/../c", "/..", "é/ü.rs", "a/./", "a/.//b/", "..a", "a..", "/./", "./../x",
];

#[test]
fn join_absolute_replaces() {
    assert_eq!(Utf8Path::new("/a").join("/b").as_str(), "/b");
    assert_eq!(Utf8Path::new("").join("x/y").as_str(), "x/y");
    assert_eq!(Utf8Path::new("a").join("b").as_str(), "a/b");
    assert_eq!(Utf8Path::new("a/").join("b").as_str(), "a/b");
    assert_eq!(Utf8Path::new("a").join("").as_str(), "a/");
}

#[test]
fn push_then_pop_restores() {
    for base in SAMPLES {
        let mut buf = Utf8PathBuf::from(base);
        buf.push("seg");
        assert!(buf.pop());
        assert_eq!(buf.as_path(), Utf8Path::new(base), "base {:?}", base);
    }
    let mut buf = Utf8PathBuf::from("a/");
    buf.push("b");
    assert_eq!(buf.as_str(), "a/b");
    assert!(buf.pop());
    assert_eq!(buf.as_str(), "a");
}

#[test]
fn strip_prefix_then_join() {
    let p = Utf8Path::new("/usr/lib/x/");
    let rest = p.strip_prefix("/usr").unwrap();
    assert_eq!(rest.as_str(), "lib/x");
    assert_eq!(Utf8Path::new("/usr").join(rest.as_str()).as_path(), p);
    assert_eq!(p.strip_prefix("/usr/lib/x").unwrap().as_str(), "");
    assert_eq!(p.strip_prefix("").unwrap().as_str(), "/usr/lib/x");
    assert_eq!(Utf8Path::new("a/./b").strip_prefix("a").unwrap().as_str(), "b");
}

#[test]
fn strip_prefix_whole_components_only() {
    assert_eq!(Utf8Path::new("foobar/x").strip_prefix("foo"), Err(StripPrefixError));
    assert_eq!(Utf8Path::new("a/b").strip_prefix("/a"), Err(StripPrefixError));
    assert!(!Utf8Path::new("foobar").starts_with("foo"));
    assert!(Utf8Path::new("foo/bar").starts_with("foo/"));
    assert!(Utf8Path::new("foo/bar").ends_with("bar"));
    assert!(!Utf8Path::new("foo/bar").ends_with("ar"));
    assert!(Utf8Path::new("/a/b/c").ends_with("b/c"));
    assert!(!Utf8Path::new("a").ends_with("/a/b"));
}

#[test]
fn equality_ignores_formatting() {
    assert_eq!(Utf8Path::new("a/b"), Utf8Path::new("a/b/"));
    assert_eq!(Utf8Path::new("a//b"), Utf8Path::new("a/b"));
    assert_ne!(Utf8Path::new("a/b"), Utf8Path::new("a/c"));
    assert_eq!(Utf8Path::new("a/./b"), Utf8Path::new("a/b"));
    assert_ne!(Utf8Path::new("./a"), Utf8Path::new("a"));
    assert_ne!(Utf8Path::new("/a"), Utf8Path::new("a"));
    assert_eq!(Utf8PathBuf::from("x//y/"), Utf8PathBuf::from("x/y"));
}

#[test]
fn stem_and_extension_edges() {
    let p = Utf8Path::new("foo.tar.gz");
    assert_eq!(p.extension(), Some("gz"));
    assert_eq!(p.file_stem(), Some("foo.tar"));
    let d = Utf8Path::new(".bashrc");
    assert_eq!(d.extension(), None);
    assert_eq!(d.file_stem(), Some(".bashrc"));
    assert_eq!(Utf8Path::new("foo").extension(), None);
    assert_eq!(Utf8Path::new("foo").file_stem(), Some("foo"));
    assert_eq!(Utf8Path::new("dir/foo.").extension(), Some(""));
    assert_eq!(Utf8Path::new("a/..").file_name(), None);
    assert_eq!(Utf8Path::new("/").file_name(), None);
    assert_eq!(Utf8Path::new("a/b/").file_name(), Some("b"));
}

#[test]
fn ancestors_stop_at_the_top() {
    assert_eq!(ancestors_of("/a/b"), vec!["/a/b", "/a", "/"]);
    assert_eq!(ancestors_of("../a"), vec!["../a", "..", ""]);
    assert_eq!(ancestors_of(""), vec![""]);
    assert_eq!(ancestors_of("./x"), vec!["./x", ".", ""]);
}

#[test]
fn with_extension_twice() {
    let p = Utf8Path::new("foo.tar.gz").with_extension("");
    assert_eq!(p.as_str(), "foo.tar");
    // "foo.tar" has the extension "tar", which the second call replaces.
    assert_eq!(p.as_path().with_extension("txt").as_str(), "foo.txt");
    assert_eq!(Utf8Path::new("foo").with_extension("txt").as_str(), "foo.txt");
    assert_eq!(Utf8Path::new("/").with_extension("txt").as_str(), "/");
    assert_eq!(Utf8Path::new("a/b.c/").with_extension("d").as_str(), "a/b.d");
}

#[test]
fn push_builds_the_same_as_join() {
    let mut buf = Utf8PathBuf::new();
    for part in ["/", "usr", "bin"] {
        buf.push(part);
    }
    let joined = Utf8Path::new("/").join("usr").as_path().join("bin");
    assert_eq!(buf, joined);
    assert_eq!(buf.as_str(), "/usr/bin");
    assert_eq!(buf, Utf8PathBuf::from("/usr/bin"));
}

#[test]
fn components_of_paths() {
    assert_eq!(
        components_of("/usr//bin/./x/"),
        vec![
            Utf8Component::RootDir,
            Utf8Component::Normal("usr"),
            Utf8Component::Normal("bin"),
            Utf8Component::Normal("x"),
        ]
    );
    assert_eq!(
        components_of("./../a"),
        vec![Utf8Component::CurDir, Utf8Component::ParentDir, Utf8Component::Normal("a")]
    );
    assert!(components_of("").is_empty());
    let mut it = Utf8Path::new("a/b/c").components();
    assert_eq!(it.next_back(), Some(Utf8Component::Normal("c")));
    assert_eq!(it.next(), Some(Utf8Component::Normal("a")));
    assert_eq!(it.next_back(), Some(Utf8Component::Normal("b")));
    assert_eq!(it.next(), None);
    assert_eq!(it.next_back(), None);
    assert_eq!(Utf8Component::RootDir.as_str(), "/");
    assert_eq!(Utf8Component::ParentDir.as_str(), "..");
}

#[test]
fn agrees_with_std_on_samples() {
    for s in SAMPLES {
        let u = Utf8Path::new(s);
        let p = Path::new(s);
        let ours: Vec<String> = components_of(s).iter().map(|c| c.as_str().to_string()).collect();
        let theirs: Vec<String> =
            p.components().map(|c| c.as_os_str().to_str().unwrap().to_string()).collect();
        assert_eq!(ours, theirs, "components of {:?}", s);
        assert_eq!(u.file_name(), p.file_name().map(|x| x.to_str().unwrap()), "{:?}", s);
        assert_eq!(u.file_stem(), p.file_stem().map(|x| x.to_str().unwrap()), "{:?}", s);
        assert_eq!(u.extension(), p.extension().map(|x| x.to_str().unwrap()), "{:?}", s);
        assert_eq!(u.parent().map(|x| x.as_str()), p.parent().map(|x| x.to_str().unwrap()), "{:?}", s);
        assert_eq!(u.is_absolute(), p.is_absolute());
        assert_eq!(u.has_root(), p.has_root());
        for t in SAMPLES {
            let q = Path::new(t);
            assert_eq!(u.join(t).as_str(), p.join(q).to_str().unwrap(), "{:?} join {:?}", s, t);
            assert_eq!(u.starts_with(t), p.starts_with(q), "{:?} starts_with {:?}", s, t);
            assert_eq!(u.ends_with(t), p.ends_with(q), "{:?} ends_with {:?}", s, t);
            assert_eq!(
                u.strip_prefix(t).ok().map(|x| x.as_str()),
                p.strip_prefix(q).ok().map(|x| x.to_str().unwrap()),
                "{:?} strip_prefix {:?}",
                s,
                t
            );
            assert_eq!(u == Utf8Path::new(t), p == q, "{:?} == {:?}", s, t);
            assert_eq!(u.partial_cmp(&Utf8Path::new(t)), p.partial_cmp(q), "{:?} cmp {:?}", s, t);
        }
        let mut ours = Utf8PathBuf::from(s);
        let mut theirs = PathBuf::from(s);
        assert_eq!(ours.pop(), theirs.pop());
        assert_eq!(ours.as_str(), theirs.to_str().unwrap());
        let mut ours = Utf8PathBuf::from(s);
        let mut theirs = PathBuf::from(s);
        assert_eq!(ours.set_extension("md"), theirs.set_extension("md"), "{:?}", s);
        assert_eq!(
            Utf8Path::new(ours.as_str()),
            Utf8Path::new(theirs.to_str().unwrap()),
            "set_extension {:?}",
            s
        );
        let mut ours = Utf8PathBuf::from(s);
        let mut theirs = PathBuf::from(s);
        ours.set_file_name("n");
        theirs.set_file_name("n");
        assert_eq!(ours.as_str(), theirs.to_str().unwrap(), "set_file_name {:?}", s);
    }
    assert!(matches!(Path::new("/").components().next(), Some(Component::RootDir)));
}

#[test]
fn text_round_trips() {
    let mut runner = TestRunner::default();
    runner
        .run(&any::<String>(), |s| {
            let buf = Utf8PathBuf::from(s.clone());
            assert_eq!(buf.as_str(), s.as_str());
            assert_eq!(buf.into_string(), s);
            Ok(())
        })
        .unwrap();
    assert_eq!(String::from(Utf8PathBuf::from("a/b")), "a/b");
}

#[test]
fn native_round_trips() {
    let native = PathBuf::from("dir/file.txt");
    let utf8 = Utf8PathBuf::from_path_buf(native.clone()).unwrap();
    assert_eq!(utf8.as_str(), "dir/file.txt");
    assert_eq!(utf8.into_std_path_buf(), native);
    let borrowed = Utf8Path::from_path(Path::new("x/y")).unwrap();
    assert_eq!(borrowed.as_str(), "x/y");
    assert_eq!(borrowed.as_std_path(), Path::new("x/y"));
    assert_eq!(Utf8Path::new("a").join_os(Path::new("b")), PathBuf::from("a/b"));
    assert_eq!(PathBuf::from(Utf8PathBuf::from("q")), PathBuf::from("q"));
}

#[test]
fn buffer_storage() {
    let mut buf = Utf8PathBuf::with_capacity(64);
    assert!(buf.capacity() >= 64);
    buf.push("abc");
    buf.reserve(100);
    assert!(buf.capacity() >= 103);
    buf.reserve_exact(10);
    buf.shrink_to_fit();
    assert_eq!(buf.as_str(), "abc");
    assert!(buf.capacity() >= 3);
    buf.clear();
    assert_eq!(buf.as_str(), "");
}

#[test]
fn set_file_name_replaces_or_pushes() {
    let mut buf = Utf8PathBuf::from("/tmp/a.txt");
    buf.set_file_name("b.rs");
    assert_eq!(buf.as_str(), "/tmp/b.rs");
    let mut buf = Utf8PathBuf::from("/");
    buf.set_file_name("etc");
    assert_eq!(buf.as_str(), "/etc");
    assert_eq!(Utf8Path::new("a/..").with_file_name("b").as_str(), "a/../b");
    let mut buf = Utf8PathBuf::from("/");
    assert!(!buf.set_extension("x"));
    assert_eq!(buf.as_str(), "/");
}

#[test]
fn ordering_by_components() {
    assert!(Utf8Path::new("a/b") < Utf8Path::new("a/c"));
    assert!(Utf8Path::new("a") < Utf8Path::new("a/b"));
    assert!(Utf8Path::new("/z") < Utf8Path::new("a"));
    assert!(Utf8Path::new("..") < Utf8Path::new("a"));
    assert!(Utf8Path::new("a/b/") <= Utf8Path::new("a//b"));
    assert!(Utf8PathBuf::from("x/é") > Utf8PathBuf::from("x/z"));
}

#[test]
fn bulk_construction_pushes_each() {
    let built = Utf8PathBuf::from_paths(&["a", "b", "/c", "d"]);
    assert_eq!(built.as_str(), "/c/d");
    let mut buf = Utf8PathBuf::from("x");
    buf.extend(&["y", "z/"]);
    assert_eq!(buf.as_str(), "x/y/z/");
    assert_eq!(Utf8PathBuf::from_paths(&[]).as_str(), "");
}

#[test]
fn default_is_empty() {
    let buf = Utf8PathBuf::default();
    assert_eq!(buf.as_str(), "");
    assert!(buf.as_path().parent().is_none());
    assert_eq!(Utf8Component::CurDir.as_str(), ".");
    assert_eq!(Utf8Component::Normal("x").as_str(), "x");
}
