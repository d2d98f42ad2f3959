use apk_icon::archive::{ArchiveOpenError, Package, ReadFailure};
use apk_icon::extract::{extract, extract_icon, ExtractionError, ExtractionResult};
use apk_icon::manifest::Manifest;
use apk_icon::resolve::{locate, resolve, IconNotFound, ResolvedIcon, Source};
use std::io::{Cursor, Write};
use zip::write::SimpleFileOptions;
use zip::{CompressionMethod, ZipWriter};

const ADAPTIVE: &str = "res/mipmap-anydpi-v26/ic_launcher.xml";

fn pack_with(entries: &[(&str, &[u8])], method: CompressionMethod) -> Vec<u8> {
    let mut writer = ZipWriter::new(Cursor::new(Vec::new()));
    let options = SimpleFileOptions::default().compression_method(method);
    for (path, data) in entries {
        writer.start_file(*path, options).unwrap();
        writer.write_all(data).unwrap();
    }
    writer.finish().unwrap().into_inner()
}

fn pack(entries: &[(&str, &[u8])]) -> Vec<u8> {
    pack_with(entries, CompressionMethod::Deflated)
}

fn open(entries: &[(&str, &[u8])]) -> Package {
    Package::open(pack(entries)).unwrap()
}

fn manifest(icon: Option<&str>) -> Manifest {
    Manifest::new(Some("com.example.app".to_string()), icon.map(|path| path.to_string()))
}

fn icon(path: &str, data: &[u8]) -> ResolvedIcon {
    ResolvedIcon { path: path.to_string(), data: data.to_vec() }
}

fn listing(paths: &[&str]) -> Vec<Option<String>> {
    paths.iter().map(|path| Some(path.to_string())).collect()
}

/// Flips one byte inside the stored copy of `marker`.
fn damage(mut bytes: Vec<u8>, marker: &[u8]) -> Vec<u8> {
    let at = bytes.windows(marker.len()).position(|window| window == marker).unwrap();
    bytes[at] ^= 0xff;
    bytes
}

/// Overwrites the first byte of the first entry's packed data with a
/// reserved deflate block type.
fn damage_first_stream(mut bytes: Vec<u8>) -> Vec<u8> {
    let name_len = u16::from_le_bytes([bytes[26], bytes[27]]) as usize;
    let extra_len = u16::from_le_bytes([bytes[28], bytes[29]]) as usize;
    bytes[30 + name_len + extra_len] = 0x07;
    bytes
}

#[test]
fn package_lists_its_entries_in_order() {
    let package =
        open(&[("AndroidManifest.xml", b"m"), ("classes.dex", b"d"), ("res/a.png", b"a")]);
    assert_eq!(package.len(), 3);
    assert_eq!(package.list(), listing(&["AndroidManifest.xml", "classes.dex", "res/a.png"]));
    assert_eq!(package.path_at(1), Some("classes.dex".to_string()));
    assert_eq!(package.path_at(3), None);
}

#[test]
fn package_reads_an_entry_by_position() {
    let mut package = open(&[("a.txt", b"first"), ("b.txt", b"second")]);
    assert_eq!(package.read_at(0), Ok(b"first".to_vec()));
    assert_eq!(package.read_at(1), Ok(b"second".to_vec()));
    assert_eq!(package.read_at(1), Ok(b"second".to_vec()));
    assert_eq!(package.read_at(2), Err(ReadFailure::NotFound));
    assert_eq!(package.len(), 2);
}

#[test]
fn package_reads_a_file_by_path() {
    let package = open(&[("a.txt", b"first"), ("dir/b.txt", b"second")]);
    assert_eq!(package.read_by_path("dir/b.txt"), Ok(b"second".to_vec()));
    assert_eq!(package.read_by_path("a.txt"), Ok(b"first".to_vec()));
    assert_eq!(package.read_by_path("b.txt"), Err(ReadFailure::NotFound));
    assert_eq!(package.read_by_path(""), Err(ReadFailure::NotFound));
}

#[test]
fn package_reads_stored_and_empty_files() {
    let bytes = pack_with(&[("empty", b""), ("raw", b"not compressed")], CompressionMethod::Stored);
    let mut package = Package::open(bytes).unwrap();
    assert_eq!(package.read_at(0), Ok(Vec::new()));
    assert_eq!(package.read_at(1), Ok(b"not compressed".to_vec()));
    assert_eq!(package.read_by_path("empty"), Ok(Vec::new()));
    assert_eq!(package.read_by_path("raw"), Ok(b"not compressed".to_vec()));
}

#[test]
fn bytes_that_are_no_archive_do_not_open() {
    assert!(matches!(Package::open(Vec::new()), Err(ArchiveOpenError)));
    assert!(matches!(Package::open(b"not a zip archive".to_vec()), Err(ArchiveOpenError)));
    let mut cut = pack(&[("a.txt", b"first")]);
    cut.truncate(cut.len() / 2);
    assert!(matches!(Package::open(cut), Err(ArchiveOpenError)));
}

#[test]
fn both_readers_must_accept_the_bytes() {
    let empty = ZipWriter::new(Cursor::new(Vec::new())).finish().unwrap().into_inner();
    assert!(zip::ZipArchive::new(Cursor::new(empty.clone())).is_ok());
    assert!(matches!(Package::open(empty), Err(ArchiveOpenError)));

    let mut prefixed = b"junk".to_vec();
    prefixed.extend_from_slice(&pack(&[("a.txt", b"first")]));
    assert!(matches!(Package::open(prefixed), Err(ArchiveOpenError)));
}

#[test]
fn damaged_stream_reports_a_read_error_by_path() {
    let payload = [b'a'; 64];
    let bytes = damage_first_stream(pack(&[("res/drawable/icon.png", &payload), ("x", b"y")]));
    let mut package = Package::open(bytes).unwrap();
    assert_eq!(package.read_by_path("res/drawable/icon.png"), Err(ReadFailure::ReadError));
    assert_eq!(package.read_by_path("x"), Ok(b"y".to_vec()));
    assert_eq!(
        resolve(&mut package, &manifest(Some("res/drawable/icon.png"))),
        Err(IconNotFound::Read(ReadFailure::ReadError))
    );
}

#[test]
fn damaged_entry_reports_a_read_error() {
    let entries: [(&str, &[u8]); 2] = [("a.txt", b"payload-one"), ("b.txt", b"payload-two")];
    let bytes = pack_with(&entries, CompressionMethod::Stored);
    let mut package = Package::open(damage(bytes, b"payload-two")).unwrap();
    assert_eq!(package.read_at(0), Ok(b"payload-one".to_vec()));
    assert_eq!(package.read_at(1), Err(ReadFailure::ReadError));
}

#[test]
fn locate_prefers_the_scan_to_the_manifest() {
    let paths = listing(&["res/drawable/icon.png", "res/mipmap-mdpi/ic_launcher.png"]);
    assert_eq!(locate(&paths, &manifest(Some("res/drawable/icon.png"))), Ok(Source::Entry(1)));
    assert_eq!(locate(&paths, &manifest(Some(ADAPTIVE))), Ok(Source::Entry(1)));
    assert_eq!(locate(&paths, &manifest(None)), Ok(Source::Entry(1)));
}

#[test]
fn locate_falls_back_to_the_manifest_bitmap() {
    let paths = listing(&["classes.dex", "res/drawable/icon.png"]);
    assert_eq!(
        locate(&paths, &manifest(Some("res/drawable/icon.png"))),
        Ok(Source::File("res/drawable/icon.png".to_string()))
    );
    assert_eq!(
        locate(&paths, &manifest(Some("res/missing.png"))),
        Ok(Source::File("res/missing.png".to_string()))
    );
}

#[test]
fn locate_fails_without_any_bitmap() {
    let paths = listing(&["classes.dex", ADAPTIVE]);
    assert_eq!(locate(&paths, &manifest(Some(ADAPTIVE))), Err(IconNotFound::Descriptor));
    assert_eq!(locate(&paths, &manifest(None)), Err(IconNotFound::NoReference));
    assert_eq!(locate(&Vec::new(), &manifest(None)), Err(IconNotFound::NoReference));
}

#[test]
fn density_priority() {
    let mut package = open(&[
        ("res/mipmap-mdpi/ic_launcher.png", b"mdpi bytes"),
        ("res/mipmap-xxhdpi/ic_launcher.png", b"xxhdpi bytes"),
    ]);
    assert_eq!(
        resolve(&mut package, &manifest(None)),
        Ok(icon("res/mipmap-xxhdpi/ic_launcher.png", b"xxhdpi bytes"))
    );
}

#[test]
fn density_priority_over_the_manifest_choice() {
    let mut package = open(&[
        ("res/mipmap-mdpi/ic_launcher.png", b"mdpi bytes"),
        ("res/mipmap-xxxhdpi/ic_launcher.png", b"xxxhdpi bytes"),
    ]);
    assert_eq!(
        resolve(&mut package, &manifest(Some("res/mipmap-mdpi/ic_launcher.png"))),
        Ok(icon("res/mipmap-xxxhdpi/ic_launcher.png", b"xxxhdpi bytes"))
    );
}

#[test]
fn tie_break_determinism() {
    let plain = ("res/mipmap-xhdpi/ic_launcher.png", b"plain".as_slice());
    let versioned = ("res/mipmap-xhdpi-v4/ic_launcher.png", b"versioned".as_slice());
    let expected = Ok(icon("res/mipmap-xhdpi-v4/ic_launcher.png", b"versioned"));

    let mut package = open(&[plain, versioned]);
    assert_eq!(resolve(&mut package, &manifest(None)), expected);
    assert_eq!(resolve(&mut package, &manifest(None)), expected);

    let mut reordered = open(&[versioned, plain]);
    assert_eq!(resolve(&mut reordered, &manifest(None)), expected);
    assert_eq!(resolve(&mut reordered, &manifest(None)), expected);
}

#[test]
fn adaptive_fallback_without_a_bitmap() {
    let mut package =
        open(&[("AndroidManifest.xml", b"manifest"), (ADAPTIVE, b"<adaptive-icon/>")]);
    assert_eq!(resolve(&mut package, &manifest(Some(ADAPTIVE))), Err(IconNotFound::Descriptor));
}

#[test]
fn adaptive_fallback_with_a_bitmap() {
    let mut package = open(&[
        ("AndroidManifest.xml", b"manifest"),
        (ADAPTIVE, b"<adaptive-icon/>"),
        ("res/mipmap-hdpi/ic_launcher.png", b"hdpi bytes"),
    ]);
    assert_eq!(
        resolve(&mut package, &manifest(Some(ADAPTIVE))),
        Ok(icon("res/mipmap-hdpi/ic_launcher.png", b"hdpi bytes"))
    );
}

#[test]
fn direct_manifest_bitmap() {
    let mut package =
        open(&[("AndroidManifest.xml", b"manifest"), ("res/drawable/icon.png", b"drawable bytes")]);
    assert_eq!(
        resolve(&mut package, &manifest(Some("res/drawable/icon.png"))),
        Ok(icon("res/drawable/icon.png", b"drawable bytes"))
    );
}

#[test]
fn total_absence() {
    let mut package = open(&[("AndroidManifest.xml", b"manifest"), ("classes.dex", b"dex")]);
    assert_eq!(resolve(&mut package, &manifest(None)), Err(IconNotFound::NoReference));
}

#[test]
fn manifest_bitmap_that_is_not_packed() {
    let mut package = open(&[("AndroidManifest.xml", b"manifest")]);
    assert_eq!(
        resolve(&mut package, &manifest(Some("res/drawable/icon.png"))),
        Err(IconNotFound::Read(ReadFailure::NotFound))
    );
}

#[test]
fn unreadable_launcher_is_fatal() {
    let bytes = pack_with(
        &[
            ("res/mipmap-mdpi/ic_launcher.png", b"mdpi-payload"),
            ("res/mipmap-xxhdpi/ic_launcher.png", b"xxhdpi-payload"),
            ("res/drawable/icon.png", b"drawable-payload"),
        ],
        CompressionMethod::Stored,
    );
    let mut package = Package::open(damage(bytes, b"xxhdpi-payload")).unwrap();
    assert_eq!(
        resolve(&mut package, &manifest(Some("res/drawable/icon.png"))),
        Err(IconNotFound::Read(ReadFailure::ReadError))
    );
}

#[test]
fn resolved_icon_is_never_a_descriptor() {
    let mut package = open(&[
        ("res/mipmap-xxxhdpi/ic_launcher.xml", b"<adaptive-icon/>"),
        ("res/mipmap-mdpi/ic_launcher.png", b"mdpi bytes"),
    ]);
    let found = resolve(&mut package, &manifest(Some("res/mipmap-xxxhdpi/ic_launcher.xml")));
    assert_eq!(found, Ok(icon("res/mipmap-mdpi/ic_launcher.png", b"mdpi bytes")));
    assert!(!found.unwrap().path.ends_with(".xml"));
}

#[test]
fn resolution_leaves_the_package_as_it_was() {
    let mut package = open(&[("res/mipmap-hdpi/ic_launcher.png", b"hdpi bytes"), ("x", b"y")]);
    let before = package.list();
    assert!(resolve(&mut package, &manifest(None)).is_ok());
    assert_eq!(package.list(), before);
    assert_eq!(package.read_at(1), Ok(b"y".to_vec()));
}

#[test]
fn round_trip_byte_fidelity() {
    let every_byte: Vec<u8> = (0..=255u8).chain((0..=255u8).rev()).collect();
    for method in [CompressionMethod::Stored, CompressionMethod::Deflated] {
        let bytes = pack_with(&[("res/mipmap-xhdpi/ic_launcher.png", &every_byte)], method);
        let mut package = Package::open(bytes).unwrap();
        let extracted = extract(&mut package, &manifest(None)).unwrap();
        assert_eq!(extracted.icon.data, every_byte);
    }
    let bytes = pack(&[("res/drawable/icon.png", &every_byte)]);
    let extracted = extract_icon(bytes, &manifest(Some("res/drawable/icon.png"))).unwrap();
    assert_eq!(extracted.icon.data, every_byte);
}

#[test]
fn extraction_names_the_output_file_after_the_package() {
    let mut package = open(&[("res/mipmap-hdpi/ic_launcher.png", b"hdpi bytes")]);
    let extracted = extract(&mut package, &manifest(None)).unwrap();
    assert_eq!(
        extracted,
        ExtractionResult {
            package_name: "com.example.app".to_string(),
            icon: icon("res/mipmap-hdpi/ic_launcher.png", b"hdpi bytes"),
        }
    );
    assert_eq!(extracted.file_name(), "com.example.app.png");
}

#[test]
fn empty_package_name_leaves_the_bare_extension() {
    let bytes = pack(&[("res/mipmap-hdpi/ic_launcher.png", b"hdpi bytes")]);
    let extracted = extract_icon(bytes, &Manifest::new(None, None)).unwrap();
    assert_eq!(extracted.package_name, "");
    assert_eq!(extracted.file_name(), ".png");
}

#[test]
fn extraction_reports_why_it_failed() {
    assert_eq!(
        extract_icon(b"no archive".to_vec(), &manifest(None)),
        Err(ExtractionError::Archive(ArchiveOpenError))
    );
    assert_eq!(
        extract_icon(pack(&[("classes.dex", b"dex")]), &manifest(None)),
        Err(ExtractionError::Icon(IconNotFound::NoReference))
    );
    assert_eq!(
        extract_icon(pack(&[("classes.dex", b"dex")]), &manifest(Some(ADAPTIVE))),
        Err(ExtractionError::Icon(IconNotFound::Descriptor))
    );
    let mut package = open(&[("classes.dex", b"dex")]);
    assert_eq!(extract(&mut package, &manifest(None)), Err(IconNotFound::NoReference));
}

#[test]
fn extraction_is_repeatable_on_the_same_bytes() {
    let bytes = pack(&[
        ("res/mipmap-hdpi-v4/ic_launcher.png", b"one"),
        ("res/mipmap-hdpi/ic_launcher.png", b"two"),
    ]);
    let first = extract_icon(bytes.clone(), &manifest(None));
    let second = extract_icon(bytes, &manifest(None));
    assert_eq!(first, second);
    assert_eq!(first.unwrap().icon, icon("res/mipmap-hdpi-v4/ic_launcher.png", b"one"));
}
