use std::io::{Cursor, Read, Write};

use ipa_webtool::remote::{ItemMetadata, SinfEntry, SongItem};
use ipa_webtool::signature::{bundle_dir_name, SignError, SignatureClient};
use zip::write::SimpleFileOptions;

const MANIFEST: &str = r#"<?xml version="1.0" encoding="UTF-8"?>
<!DOCTYPE plist PUBLIC "-//Apple//DTD PLIST 1.0//EN" "http://www.apple.com/DTDs/PropertyList-1.0.dtd">
<plist version="1.0">
<dict>
	<key>SinfPaths</key>
	<array>
		<string>SC_Info/Demo.sinf</string>
		<string>SC_Info/Other.sinf</string>
	</array>
</dict>
</plist>
"#;

const MANIFEST_WITHOUT_PATHS: &str = r#"<?xml version="1.0" encoding="UTF-8"?>
<plist version="1.0">
<dict>
	<key>Other</key>
	<string>value</string>
</dict>
</plist>
"#;

fn build_zip(entries: &[(&str, &[u8])]) -> Vec<u8> {
    let mut w = zip::ZipWriter::new(Cursor::new(Vec::new()));
    for (name, data) in entries {
        w.start_file(*name, SimpleFileOptions::default()).unwrap();
        w.write_all(data).unwrap();
    }
    w.finish().unwrap().into_inner()
}

fn package(manifest: &str) -> Vec<u8> {
    build_zip(&[
        ("Payload/", b""),
        ("Payload/Demo.app/", b""),
        ("Payload/Demo.app/Info.plist", b"info"),
        ("Payload/Demo.app/SC_Info/Manifest.plist", manifest.as_bytes()),
        ("Payload/Demo.app/SC_Info/Demo.sinf", b"old license"),
        ("Payload/Demo.app/Frameworks/Kit.framework/", b""),
    ])
}

fn read_member(archive: &[u8], name: &str) -> Option<Vec<u8>> {
    let mut z = zip::ZipArchive::new(Cursor::new(archive)).ok()?;
    let mut f = z.by_name(name).ok()?;
    let mut data = Vec::new();
    f.read_to_end(&mut data).ok()?;
    Some(data)
}

fn member_names(archive: &[u8]) -> Vec<String> {
    let z = zip::ZipArchive::new(Cursor::new(archive)).unwrap();
    z.file_names().map(String::from).collect()
}

fn song(sinf: Option<&str>) -> SongItem {
    SongItem {
        url: Some("https://cdn/pkg.ipa".to_string()),
        metadata: Some(ItemMetadata {
            bundle_display_name: Some("Demo".to_string()),
            bundle_short_version_string: Some("2.1".to_string()),
            bundle_id: Some("com.example.demo".to_string()),
            artwork_url_60: Some("https://img/60.png".to_string()),
            artwork_url_512: None,
            artwork_url_100: None,
            artwork_url: None,
            artist_name: Some("Example".to_string()),
        }),
        sinfs: vec![
            SinfEntry { id: Some(1), sinf: Some("BBBB".to_string()) },
            SinfEntry { id: Some(0), sinf: sinf.map(String::from) },
        ],
    }
}

fn client(archive: Vec<u8>, sinf: &str) -> SignatureClient {
    let mut c = SignatureClient::new(&song(Some(sinf)), "user@example.com").unwrap();
    c.load(archive, "pkg.ipa".to_string());
    c
}

#[test]
fn bundle_directory_names() {
    assert!(bundle_dir_name("Payload/Demo.app/"));
    assert!(!bundle_dir_name("Payload/Demo.app/Plugins/Ext.app/"));
    assert!(!bundle_dir_name("Payload/.app/"));
    assert!(!bundle_dir_name("Payload/Demo.app"));
    assert!(!bundle_dir_name("Other/Demo.app/"));
}

#[test]
fn signing_puts_license_in_manifest_slot() {
    let mut c = client(package(MANIFEST), "AQID");
    c.append_signature().unwrap();
    let out = c.archive().clone();
    assert_eq!(read_member(&out, "Payload/Demo.app/SC_Info/Demo.sinf"), Some(vec![1, 2, 3]));
    assert_eq!(read_member(&out, "Payload/Demo.app/Info.plist"), Some(b"info".to_vec()));
    let names = member_names(&out);
    assert_eq!(names.len(), 6);
    assert_eq!(names.last().map(String::as_str), Some("Payload/Demo.app/SC_Info/Demo.sinf"));
}

#[test]
fn signing_twice_keeps_slot_content() {
    let mut c = client(package(MANIFEST), "AQID");
    c.append_signature().unwrap();
    let first = read_member(c.archive(), "Payload/Demo.app/SC_Info/Demo.sinf");
    c.append_signature().unwrap();
    let second = read_member(c.archive(), "Payload/Demo.app/SC_Info/Demo.sinf");
    assert_eq!(first, Some(vec![1, 2, 3]));
    assert_eq!(first, second);
}

#[test]
fn metadata_descriptor_is_added_once() {
    let mut c = client(package(MANIFEST), "AQID");
    c.append_metadata().unwrap();
    c.append_metadata().unwrap();
    let out = c.archive().clone();
    let names = member_names(&out);
    assert_eq!(names.iter().filter(|n| n.as_str() == "iTunesMetadata.plist").count(), 1);
    let xml = String::from_utf8(read_member(&out, "iTunesMetadata.plist").unwrap()).unwrap();
    assert!(xml.contains("<key>apple-id</key>"));
    assert!(xml.contains("<string>user@example.com</string>"));
    assert!(xml.contains("<key>artworkUrl</key>"));
    assert!(xml.contains("https://img/60.png"));
    assert!(xml.contains("<key>bundleId</key>"));
    assert_eq!(read_member(&out, "Payload/Demo.app/Info.plist"), Some(b"info".to_vec()));
}

#[test]
fn metadata_pairs_in_order() {
    let c = client(Vec::new(), "AQID");
    let keys: Vec<String> = c.metadata_pairs().into_iter().map(|(k, _)| k).collect();
    assert_eq!(
        keys,
        vec![
            "bundleDisplayName",
            "bundleShortVersionString",
            "bundleId",
            "artworkUrl",
            "artistName",
            "apple-id",
            "userName"
        ]
    );
}

#[test]
fn no_license_blob_numbered_zero() {
    let mut s = song(Some("AQID"));
    s.sinfs.remove(1);
    assert!(matches!(SignatureClient::new(&s, "a@b.c"), Err(SignError::InvalidSignature)));
}

#[test]
fn missing_license_text_is_empty() {
    let mut c = client(package(MANIFEST), "AQID");
    let mut s2 = SignatureClient::new(&song(None), "u@e.com").unwrap();
    s2.load(c.archive().clone(), "pkg.ipa".to_string());
    s2.append_signature().unwrap();
    assert_eq!(read_member(s2.archive(), "Payload/Demo.app/SC_Info/Demo.sinf"), Some(vec![]));
    c.append_signature().unwrap();
}

#[test]
fn archive_failures() {
    let mut c = client(b"not a zip".to_vec(), "AQID");
    assert_eq!(c.append_signature(), Err(SignError::MalformedArchive));
    assert_eq!(c.append_metadata(), Err(SignError::MalformedArchive));
    assert_eq!(c.archive().clone(), b"not a zip".to_vec());

    let no_bundle = build_zip(&[("Payload/", b""), ("Payload/readme.txt", b"x")]);
    let mut c = client(no_bundle, "AQID");
    assert_eq!(c.append_signature(), Err(SignError::MalformedArchive));

    let two = build_zip(&[("Payload/A.app/", b""), ("Payload/B.app/", b"")]);
    let mut c = client(two, "AQID");
    assert_eq!(c.append_signature(), Err(SignError::MalformedArchive));
}

#[test]
fn manifest_failures() {
    let no_manifest = build_zip(&[("Payload/Demo.app/", b"")]);
    let mut c = client(no_manifest, "AQID");
    assert_eq!(c.append_signature(), Err(SignError::MalformedManifest));

    let mut c = client(package("this is not a plist"), "AQID");
    assert_eq!(c.append_signature(), Err(SignError::MalformedManifest));

    let mut c = client(package(MANIFEST_WITHOUT_PATHS), "AQID");
    let before = c.archive().clone();
    assert_eq!(c.append_signature(), Err(SignError::MissingLicenseSlot));
    assert_eq!(c.archive().clone(), before);
}

#[test]
fn malformed_license_blob() {
    let mut c = client(package(MANIFEST), "***");
    assert_eq!(c.append_signature(), Err(SignError::MalformedLicense));
}

#[test]
fn sign_error_messages() {
    assert_eq!(SignError::MalformedArchive.message(), "Could not find app bundle");
    assert_eq!(SignError::MalformedManifest.message(), "Invalid manifest format");
}
