use webpify::error::Error;
use webpify::path::Args;

fn args(output: Option<&str>) -> Args {
    Args { images: Vec::new(), output: output.map(String::from) }
}

fn resolve(output: Option<&str>, path: &str) -> String {
    match args(output).build_path(path) {
        Ok(target) => target,
        Err(error) => panic!("{path} was refused: {error:?}"),
    }
}

#[test]
fn replaces_the_extension_in_place() {
    assert_eq!(resolve(None, "a.png"), "a.webp");
    assert_eq!(resolve(None, "photos/2024/a.png"), "photos/2024/a.webp");
    assert_eq!(resolve(None, "/abs/dir/a.jpeg"), "/abs/dir/a.webp");
}

#[test]
fn replaces_only_the_last_extension() {
    assert_eq!(resolve(None, "a.tar.gz"), "a.tar.webp");
}

#[test]
fn adds_the_extension_where_there_is_none() {
    assert_eq!(resolve(None, "dir/picture"), "dir/picture.webp");
    assert_eq!(resolve(None, ".hidden"), ".hidden.webp");
}

#[test]
fn moves_the_file_name_to_the_output_directory() {
    assert_eq!(resolve(Some("out"), "a.png"), "out/a.webp");
    assert_eq!(resolve(Some("out"), "photos/2024/a.png"), "out/a.webp");
    assert_eq!(resolve(Some("/tmp/out/"), "/abs/dir/a.jpeg"), "/tmp/out/a.webp");
}

#[test]
fn output_directory_replaces_the_directory_of_the_input() {
    assert_eq!(resolve(Some("out"), "x/a.png"), resolve(Some("out"), "y/z/a.png"));
    assert_eq!(resolve(Some("out"), "x/a.png"), resolve(Some("out"), "a.png"));
}

#[test]
fn output_directory_need_not_exist() {
    assert_eq!(resolve(Some("no/such/dir"), "a.png"), "no/such/dir/a.webp");
}

#[test]
fn refuses_a_path_without_a_file_name() {
    for path in ["", "/", "..", "a/..", "."] {
        assert!(matches!(args(None).build_path(path), Err(Error::InvalidFileName)), "{path}");
        assert!(matches!(args(Some("out")).build_path(path), Err(Error::InvalidFileName)), "{path}");
    }
}

#[test]
fn accepts_every_path_with_a_file_name() {
    for path in ["a", "a.png", "dir/a", "/a", "a/", "a/."] {
        assert!(args(None).build_path(path).is_ok(), "{path}");
        assert!(args(Some("out")).build_path(path).is_ok(), "{path}");
    }
}

#[test]
fn leaves_a_path_with_the_target_extension_unchanged() {
    assert_eq!(resolve(None, "a.webp"), "a.webp");
    assert_eq!(resolve(None, "dir/sub/a.webp"), "dir/sub/a.webp");
    assert_eq!(resolve(Some("out"), "out/a.webp"), "out/a.webp");
}

#[test]
fn resolving_twice_is_resolving_once() {
    for path in ["a.png", "dir/a", "dir/a.tar.gz", ".hidden", "a.webp/"] {
        let once = resolve(None, path);
        assert_eq!(resolve(None, &once), once);
        let moved = resolve(Some("out"), path);
        assert_eq!(resolve(Some("out"), &moved), moved);
    }
}

#[test]
fn drops_what_follows_the_file_name() {
    assert_eq!(resolve(None, "a.webp/"), "a.webp");
    assert_eq!(resolve(None, "dir/a.png/."), "dir/a.webp");
}

#[test]
fn agrees_with_the_standard_paths() {
    for path in ["a.png", "dir/a.b.c", "/x/y/z.jpeg", "a/", "..", "", "/"] {
        let plain = std::path::Path::new(path);
        let expected = plain.file_name().map(|_| plain.with_extension("webp"));
        let got = args(None).build_path(path).ok().map(std::path::PathBuf::from);
        assert_eq!(got, expected, "{path}");
        let expected = plain
            .file_name()
            .map(|name| std::path::Path::new("out").join(name).with_extension("webp"));
        let got = args(Some("out")).build_path(path).ok().map(std::path::PathBuf::from);
        assert_eq!(got, expected, "{path}");
    }
}

#[test]
fn places_the_name_it_is_given() {
    let name = || Some(String::from("b.png"));
    assert_eq!(args(Some("out")).place("x/y.png", name()).unwrap(), "out/b.webp");
    assert_eq!(args(Some("out/")).place("", name()).unwrap(), "out/b.webp");
    assert_eq!(args(None).place("dir/a.png", name()).unwrap(), "dir/a.webp");
}

#[test]
fn refuses_to_place_what_has_no_name() {
    assert!(matches!(args(None).place("dir/a.png", None), Err(Error::InvalidFileName)));
    assert!(matches!(args(Some("out")).place("dir/a.png", None), Err(Error::InvalidFileName)));
}
