//! The layout of an archive.

use cargo_clone::archive::{check_entry, crate_base, directory_name, first_outside, is_within};
use cargo_clone::{CloneError, ErrorKind};
use flate2::read::GzDecoder;
use flate2::write::GzEncoder;
use flate2::Compression;
use tar::{Archive, Builder, Header};

/// A compressed archive with one entry of one byte at each of `paths`.
fn packed(paths: &[&str]) -> Vec<u8> {
    let mut builder = Builder::new(GzEncoder::new(Vec::new(), Compression::default()));
    for path in paths {
        let mut header = Header::new_gnu();
        header.set_size(1);
        header.set_mode(0o644);
        builder.append_data(&mut header, path, &b"x"[..]).unwrap();
    }
    builder.into_inner().unwrap().finish().unwrap()
}

/// Goes through a compressed archive as an unpacker does, and gives the entries that it would
/// have unpacked, with the failure that stopped it.
fn walk(bytes: &[u8], base: &str) -> (Vec<String>, Result<(), CloneError>) {
    let mut archive = Archive::new(GzDecoder::new(bytes));
    let mut unpacked = Vec::new();
    for entry in archive.entries().unwrap() {
        let entry = entry.unwrap();
        let path = entry.path().unwrap().to_string_lossy().into_owned();
        if let Err(e) = check_entry(base, &path) {
            return (unpacked, Err(e));
        }
        unpacked.push(path);
    }
    (unpacked, Ok(()))
}

#[test]
fn an_archive_with_an_entry_elsewhere_is_unpacked_up_to_that_entry() {
    let paths = ["widgets-1.0.0/Cargo.toml", "other-1.0.0/src/lib", "widgets-1.0.0/src/lib"];
    let (unpacked, outcome) = walk(&packed(&paths), "widgets-1.0.0");
    assert_eq!(unpacked, vec!["widgets-1.0.0/Cargo.toml".to_string()]);
    let e = outcome.unwrap_err();
    assert_eq!(e.kind(), ErrorKind::ArchiveLayoutMismatch);
    assert_eq!(
        e.message(),
        "Expected path `widgets-1.0.0` in tarball, got `other-1.0.0/src/lib`."
    );
    let listed: Vec<String> = paths.iter().map(|p| p.to_string()).collect();
    assert_eq!(first_outside("widgets-1.0.0", &listed), Some(unpacked.len()));

    let (unpacked, outcome) = walk(&packed(&["other-1.0.0/src/lib"]), "widgets-1.0.0");
    assert_eq!(unpacked, Vec::<String>::new());
    assert_eq!(outcome.unwrap_err().kind(), ErrorKind::ArchiveLayoutMismatch);

    let paths = ["widgets-1.0.0/Cargo.toml", "widgets-1.0.0/src/lib.rs"];
    let (unpacked, outcome) = walk(&packed(&paths), "widgets-1.0.0");
    assert_eq!(unpacked, paths.iter().map(|p| p.to_string()).collect::<Vec<String>>());
    assert_eq!(outcome, Ok(()));
}

#[test]
fn the_directory_is_named_by_the_lowered_name_and_the_version() {
    assert_eq!(crate_base("widgets", "1.0.0"), "widgets-1.0.0");
    assert_eq!(crate_base("BitFlags", "1.0.5"), "bitflags-1.0.5");
    assert_eq!(crate_base("Inflector", "0.11.4-rc.1"), "inflector-0.11.4-rc.1");
    assert_eq!(crate_base("rs-graph", "0.21.0"), "rs-graph-0.21.0");
    assert_eq!(crate_base("ÄB", "1.0.0"), "äb-1.0.0");
    assert_eq!(crate_base("", ""), "-");
    assert_eq!(directory_name("widgets", "1.0.0"), "widgets-1.0.0");
    assert_eq!(directory_name("Widgets", "1.0.0"), "Widgets-1.0.0");
    assert_eq!(directory_name("", ""), "-");
}

#[test]
fn an_entry_elsewhere_stops_the_unpacking() {
    let e = check_entry("widgets-1.0.0", "other-1.0.0/src/lib").unwrap_err();
    assert_eq!(e.kind(), ErrorKind::ArchiveLayoutMismatch);
    assert_eq!(
        e.message(),
        "Expected path `widgets-1.0.0` in tarball, got `other-1.0.0/src/lib`."
    );
    let entries = vec![
        "widgets-1.0.0/Cargo.toml".to_string(),
        "widgets-1.0.0/src/main".to_string(),
        "other-1.0.0/src/lib".to_string(),
        "widgets-1.0.0/src/lib".to_string(),
    ];
    assert_eq!(first_outside("widgets-1.0.0", &entries), Some(2));
    assert_eq!(first_outside("other-1.0.0", &entries), Some(0));
    assert_eq!(first_outside("widgets-1.0.0", &entries[..2].to_vec()), None);
    assert_eq!(first_outside("widgets-1.0.0", &Vec::new()), None);
}

#[test]
fn an_entry_lies_within_by_whole_path_components() {
    let base = "widgets-1.0.0";
    for path in ["widgets-1.0.0", "widgets-1.0.0/", "widgets-1.0.0/a", "widgets-1.0.0//a", "widgets-1.0.0/../x"] {
        assert!(is_within(base, path), "{:?}", path);
        assert_eq!(check_entry(base, path), Ok(()));
        assert!(std::path::Path::new(path).starts_with(base));
    }
    for path in [
        "",
        "widgets-1.0.",
        "widgets-1.0.0-evil/a",
        "widgets-1.0.01/a",
        "/widgets-1.0.0/a",
        "./widgets-1.0.0/a",
        "../widgets-1.0.0/a",
        "x/widgets-1.0.0/a",
        "Widgets-1.0.0/a",
        "widgets-1.0.0\\a",
    ] {
        assert!(!is_within(base, path), "{:?}", path);
        assert_eq!(check_entry(base, path).unwrap_err().kind(), ErrorKind::ArchiveLayoutMismatch);
        assert!(!std::path::Path::new(path).starts_with(base));
    }
}
