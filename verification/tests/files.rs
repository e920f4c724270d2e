use ratls_transfer::serve::files::{
    DirItem, DirProbe, FileProbe, FilesError, Listing, Payload, SimpleFiles,
};

fn names(list: &[&str]) -> Vec<String> {
    list.iter().map(|name| name.to_string()).collect()
}

fn sorted(mut list: Vec<String>) -> Vec<String> {
    list.sort();
    list
}

#[test]
fn new_keeps_the_root() {
    let files = SimpleFiles::new("./root");
    assert_eq!(files.get_root(), "./root");
}

#[test]
fn resolve_joins_the_address_to_the_root() {
    let files = SimpleFiles::new("./root");
    assert_eq!(files.resolve("example.txt"), Ok("./root/example.txt".to_string()));
    assert_eq!(files.resolve(""), Ok("./root/".to_string()));
    assert_eq!(files.resolve("a/b"), Ok("./root/a/b".to_string()));
}

#[test]
fn resolve_refuses_an_absolute_address() {
    let files = SimpleFiles::new("./root");
    assert_eq!(files.resolve("/etc/passwd"), Err(FilesError::AbsolutePath));
    assert_eq!(files.resolve("/"), Err(FilesError::AbsolutePath));
}

#[test]
fn resolve_keeps_parent_segments() {
    let files = SimpleFiles::new("./root");
    assert_eq!(files.resolve("../secret"), Ok("./root/../secret".to_string()));
}

#[test]
fn resolve_refuses_everything_under_an_absolute_root() {
    let files = SimpleFiles::new("/srv/files");
    assert_eq!(files.resolve("example.txt"), Err(FilesError::AbsolutePath));
    assert_eq!(files.resolve(""), Err(FilesError::AbsolutePath));
}

#[test]
fn payload_of_a_regular_file_has_its_size_and_media_type() {
    let files = SimpleFiles::new("./root");
    assert_eq!(
        files.get_payload("example.txt", FileProbe::Opened { size: 1234 }),
        Ok(Payload { size: 1234, media_type: "text/plain".to_string() })
    );
}

#[test]
fn media_type_goes_by_the_extension() {
    let files = SimpleFiles::new("root");
    let media_type = |address: &str| {
        files.get_payload(address, FileProbe::Opened { size: 1 }).map(|payload| payload.media_type)
    };
    assert_eq!(media_type("page.html"), Ok("text/html".to_string()));
    assert_eq!(media_type("picture.png"), Ok("image/png".to_string()));
    assert_eq!(media_type("PICTURE.PNG"), Ok("image/png".to_string()));
    assert_eq!(media_type("data.json"), Ok("application/json".to_string()));
    assert_eq!(media_type("dir.d/archive.tar.gz"), Ok("application/gzip".to_string()));
}

#[test]
fn media_type_of_an_unknown_extension_is_generic() {
    let files = SimpleFiles::new("root");
    let media_type = |address: &str| {
        files.get_payload(address, FileProbe::Opened { size: 1 }).map(|payload| payload.media_type)
    };
    assert_eq!(media_type("blob"), Ok("application/octet-stream".to_string()));
    assert_eq!(media_type("blob.unknown-ext"), Ok("application/octet-stream".to_string()));
    assert_eq!(media_type(".hidden"), Ok("application/octet-stream".to_string()));
}

#[test]
fn payload_of_an_empty_file() {
    let files = SimpleFiles::new("root");
    assert_eq!(
        files.get_payload("empty.txt", FileProbe::Opened { size: 0 }),
        Ok(Payload { size: 0, media_type: "text/plain".to_string() })
    );
}

#[test]
fn payload_errors_follow_the_probe() {
    let files = SimpleFiles::new("root");
    assert_eq!(files.get_payload("a.txt", FileProbe::NotAFile), Err(FilesError::NotAFile));
    assert_eq!(files.get_payload("a.txt", FileProbe::OpenFailed), Err(FilesError::Open));
    assert_eq!(files.get_payload("a.txt", FileProbe::MetadataFailed), Err(FilesError::Metadata));
}

#[test]
fn payload_of_an_absolute_address_is_refused_whatever_is_there() {
    let files = SimpleFiles::new("root");
    for probe in [
        FileProbe::NotAFile,
        FileProbe::OpenFailed,
        FileProbe::MetadataFailed,
        FileProbe::Opened { size: 10 },
    ] {
        assert_eq!(files.get_payload("/etc/passwd", probe), Err(FilesError::AbsolutePath));
    }
}

#[test]
fn listing_parts_directories_from_files() {
    let files = SimpleFiles::new("./root");
    let probe = DirProbe::Items(vec![
        DirItem::Directory("a".to_string()),
        DirItem::RegularFile("c.txt".to_string()),
        DirItem::Directory("b".to_string()),
    ]);
    let listing = files.get_listing("", probe).unwrap();
    assert_eq!(sorted(listing.dirs.to_vec()), names(&["a", "b"]));
    assert_eq!(sorted(listing.files.to_vec()), names(&["c.txt"]));
    assert_eq!(listing.dirs.len(), 2);
    assert_eq!(listing.files.len(), 1);
}

#[test]
fn listing_keeps_the_order_of_reading() {
    let items = vec![
        DirItem::RegularFile("z".to_string()),
        DirItem::Directory("y".to_string()),
        DirItem::RegularFile("x".to_string()),
        DirItem::Directory("w".to_string()),
    ];
    assert_eq!(
        Listing::from_items(&items),
        Ok(Listing { dirs: names(&["y", "w"]), files: names(&["z", "x"]) })
    );
}

#[test]
fn listing_leaves_out_what_is_neither_directory_nor_file() {
    let items = vec![
        DirItem::Other("link".to_string()),
        DirItem::RegularFile("a".to_string()),
        DirItem::Other("socket".to_string()),
    ];
    assert_eq!(
        Listing::from_items(&items),
        Ok(Listing { dirs: Vec::new(), files: names(&["a"]) })
    );
}

#[test]
fn listing_of_an_empty_directory_is_empty() {
    let files = SimpleFiles::new("root");
    assert_eq!(
        files.get_listing("empty", DirProbe::Items(Vec::new())),
        Ok(Listing { dirs: Vec::new(), files: Vec::new() })
    );
    assert_eq!(Listing::default(), Listing { dirs: Vec::new(), files: Vec::new() });
}

#[test]
fn listing_stops_at_the_first_failure() {
    let type_failed = vec![
        DirItem::Directory("a".to_string()),
        DirItem::TypeFailed,
        DirItem::ReadFailed,
    ];
    assert_eq!(Listing::from_items(&type_failed), Err(FilesError::FileType));
    let read_failed = vec![
        DirItem::ReadFailed,
        DirItem::TypeFailed,
        DirItem::RegularFile("b".to_string()),
    ];
    assert_eq!(Listing::from_items(&read_failed), Err(FilesError::NextEntry));
}

#[test]
fn listing_errors_follow_the_probe() {
    let files = SimpleFiles::new("root");
    assert_eq!(files.get_listing("a", DirProbe::NotADirectory), Err(FilesError::NotADirectory));
    assert_eq!(files.get_listing("a", DirProbe::ReadFailed), Err(FilesError::ReadDir));
    assert_eq!(
        files.get_listing("a", DirProbe::Items(vec![DirItem::TypeFailed])),
        Err(FilesError::FileType)
    );
}

#[test]
fn listing_of_an_absolute_address_is_refused_whatever_is_there() {
    let files = SimpleFiles::new("root");
    let probe = DirProbe::Items(vec![DirItem::RegularFile("passwd".to_string())]);
    assert_eq!(files.get_listing("/etc", probe), Err(FilesError::AbsolutePath));
    assert_eq!(files.get_listing("/etc", DirProbe::NotADirectory), Err(FilesError::AbsolutePath));
}

#[test]
fn parent_segments_are_not_interpreted() {
    let files = SimpleFiles::new("./root");
    assert_eq!(
        files.get_payload("../secret.txt", FileProbe::Opened { size: 9 }),
        Ok(Payload { size: 9, media_type: "text/plain".to_string() })
    );
    let probe = DirProbe::Items(vec![DirItem::Directory("home".to_string())]);
    assert_eq!(
        files.get_listing("..", probe),
        Ok(Listing { dirs: names(&["home"]), files: Vec::new() })
    );
}
