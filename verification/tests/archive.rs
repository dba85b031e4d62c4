use install_pipeline::archive::{place_entry, plan_step, ExtractError, ExtractStep, Extraction};
use install_pipeline::progress::Progress;
use std::io::{Cursor, Write};
use zip::write::FileOptions;
use zip::{CompressionMethod, ZipWriter};

fn build(method: CompressionMethod, entries: &[(&str, Option<&[u8]>)]) -> Vec<u8> {
    let mut w = ZipWriter::new(Cursor::new(Vec::new()));
    let opts = FileOptions::default().compression_method(method);
    for (name, content) in entries {
        match content {
            None => w.add_directory(*name, opts).unwrap(),
            Some(c) => {
                w.start_file(*name, opts).unwrap();
                w.write_all(c).unwrap();
            }
        }
    }
    w.finish().unwrap().into_inner()
}

fn find(hay: &[u8], needle: &[u8]) -> usize {
    hay.windows(needle.len()).position(|w| w == needle).unwrap()
}

fn opened(bytes: Vec<u8>, root: &str) -> Extraction {
    match Extraction::open(bytes, root) {
        Ok(x) => x,
        Err(e) => panic!("archive refused: {:?}", e),
    }
}

fn expect_dir(step: Option<Result<ExtractStep, ExtractError>>, want: &str) {
    match step {
        Some(Ok(ExtractStep::CreateDir { path })) => assert_eq!(path, want),
        other => panic!("expected directory {:?}, got {:?}", want, other),
    }
}

fn expect_file(step: Option<Result<ExtractStep, ExtractError>>, want: &str, data: &[u8]) {
    match step {
        Some(Ok(ExtractStep::WriteFile { path, content })) => {
            assert_eq!(path, want);
            assert_eq!(content, data);
        }
        other => panic!("expected file {:?}, got {:?}", want, other),
    }
}

fn expect_error(step: Option<Result<ExtractStep, ExtractError>>, want: ExtractError) {
    match step {
        Some(Err(e)) => assert_eq!(e, want),
        other => panic!("expected {:?}, got {:?}", want, other),
    }
}

#[test]
fn garbage_is_not_an_archive() {
    for bytes in [
        Vec::new(),
        b"not a zip file at all".to_vec(),
        vec![0u8; 4096],
        b"PK\x03\x04 truncated".to_vec(),
    ] {
        match Extraction::open(bytes, "/opt/tool") {
            Err(e) => assert_eq!(e, ExtractError::Invalid),
            Ok(_) => panic!("garbage accepted"),
        }
    }
}

#[test]
fn truncated_archive_is_invalid() {
    let bytes = build(CompressionMethod::Stored, &[("a.txt", Some(b"hello"))]);
    let cut = bytes[..bytes.len() - 10].to_vec();
    assert!(matches!(Extraction::open(cut, "/opt/tool"), Err(ExtractError::Invalid)));
}

#[test]
fn archive_without_entries_is_invalid() {
    let bytes = build(CompressionMethod::Stored, &[]);
    assert!(matches!(Extraction::open(bytes, "/opt/tool"), Err(ExtractError::Invalid)));
}

#[test]
fn entries_come_out_in_archive_order() {
    let bytes = build(
        CompressionMethod::Stored,
        &[
            ("pkg/", None),
            ("pkg/bin/", None),
            ("pkg/bin/tool.exe", Some(b"MZ\x90\x00binary")),
            ("pkg/readme.txt", Some(b"read me")),
        ],
    );
    let mut x = opened(bytes, "C:\\ffmpeg");
    assert_eq!(x.total(), 4);
    assert_eq!(x.processed(), 0);
    assert_eq!(x.progress(), Progress::Measured(0));
    expect_dir(x.next_step(), "C:\\ffmpeg/pkg");
    assert_eq!(x.progress(), Progress::Measured(25));
    expect_dir(x.next_step(), "C:\\ffmpeg/pkg/bin");
    assert_eq!(x.progress(), Progress::Measured(50));
    expect_file(x.next_step(), "C:\\ffmpeg/pkg/bin/tool.exe", b"MZ\x90\x00binary");
    assert_eq!(x.progress(), Progress::Measured(75));
    expect_file(x.next_step(), "C:\\ffmpeg/pkg/readme.txt", b"read me");
    assert_eq!(x.progress(), Progress::Measured(100));
    assert_eq!(x.processed(), 4);
    assert!(x.next_step().is_none());
    assert!(x.next_step().is_none());
    assert_eq!(x.processed(), 4);
}

#[test]
fn deflated_content_is_decoded() {
    let text: Vec<u8> = b"all work and no play ".iter().cycle().take(5000).cloned().collect();
    let bytes = build(CompressionMethod::Deflated, &[("long.txt", Some(&text))]);
    assert!(bytes.len() < text.len());
    let mut x = opened(bytes, "/opt/tool");
    expect_file(x.next_step(), "/opt/tool/long.txt", &text);
    assert!(x.next_step().is_none());
}

#[test]
fn empty_file_is_written_empty() {
    let bytes = build(CompressionMethod::Stored, &[("empty.bin", Some(b""))]);
    let mut x = opened(bytes, "/opt/tool");
    expect_file(x.next_step(), "/opt/tool/empty.bin", b"");
}

#[test]
fn traversal_entry_is_refused_and_nothing_after_it_is_handed_out() {
    let bytes = build(
        CompressionMethod::Stored,
        &[("ok.txt", Some(b"fine")), ("../evil.txt", Some(b"bad")), ("late.txt", Some(b"x"))],
    );
    let mut x = opened(bytes, "/opt/tool");
    expect_file(x.next_step(), "/opt/tool/ok.txt", b"fine");
    expect_error(x.next_step(), ExtractError::UnsafePath);
    assert_eq!(x.processed(), 1);
    expect_error(x.next_step(), ExtractError::UnsafePath);
    assert_eq!(x.processed(), 1);
}

#[test]
fn absolute_entry_is_refused() {
    let bytes = build(CompressionMethod::Stored, &[("/etc/passwd", Some(b"root"))]);
    let mut x = opened(bytes, "/opt/tool");
    expect_error(x.next_step(), ExtractError::UnsafePath);
}

#[test]
fn parent_inside_the_root_is_resolved() {
    let bytes = build(CompressionMethod::Stored, &[("a/../b.txt", Some(b"b"))]);
    let mut x = opened(bytes, "/opt/tool");
    expect_file(x.next_step(), "/opt/tool/b.txt", b"b");
}

#[test]
fn corrupted_content_cannot_be_read() {
    let mut bytes = build(
        CompressionMethod::Stored,
        &[("first.txt", Some(b"first content")), ("second.txt", Some(b"second content"))],
    );
    let at = find(&bytes, b"second content");
    bytes[at] ^= 0xff;
    let mut x = opened(bytes, "/opt/tool");
    expect_file(x.next_step(), "/opt/tool/first.txt", b"first content");
    expect_error(x.next_step(), ExtractError::EntryRead);
    assert_eq!(x.processed(), 1);
}

#[test]
fn entry_with_broken_local_header_cannot_be_read() {
    let mut bytes = build(CompressionMethod::Stored, &[("a.txt", Some(b"hello"))]);
    assert_eq!(&bytes[..4], b"PK\x03\x04");
    bytes[2] = 0;
    let mut x = opened(bytes, "/opt/tool");
    expect_error(x.next_step(), ExtractError::EntryRead);
}

#[test]
fn unsafe_name_wins_over_unreadable_content() {
    let mut bytes = build(CompressionMethod::Stored, &[("../x.txt", Some(b"payload-bytes"))]);
    let at = find(&bytes, b"payload-bytes");
    bytes[at] ^= 0xff;
    let mut x = opened(bytes, "/opt/tool");
    expect_error(x.next_step(), ExtractError::UnsafePath);
}

#[test]
fn every_step_lies_below_the_root() {
    let bytes = build(
        CompressionMethod::Deflated,
        &[
            ("top/", None),
            ("top/a.txt", Some(b"a")),
            ("top/sub/../b.txt", Some(b"b")),
            ("top\\c.txt", Some(b"c")),
            ("./d.txt", Some(b"d")),
        ],
    );
    let mut x = opened(bytes, "/srv/install");
    let mut seen = 0;
    while let Some(step) = x.next_step() {
        let step = step.unwrap();
        let path = step.path();
        assert!(path.starts_with("/srv/install/"));
        assert!(path.len() > "/srv/install/".len());
        assert!(!path.split('/').any(|c| c == ".."));
        seen += 1;
    }
    assert_eq!(seen, 5);
}

#[test]
fn placement_tells_directories_from_files() {
    let d = place_entry("/opt/tool", "bin/").unwrap();
    assert_eq!(d.path, "/opt/tool/bin");
    assert!(d.is_directory);
    let f = place_entry("/opt/tool", "bin/tool").unwrap();
    assert_eq!(f.path, "/opt/tool/bin/tool");
    assert!(!f.is_directory);
    assert_eq!(place_entry("/opt/tool", "../bin/").unwrap_err(), ExtractError::UnsafePath);
    assert_eq!(place_entry("/opt/tool", "").unwrap_err(), ExtractError::UnsafePath);
}

#[test]
fn step_for_a_file_carries_its_content() {
    assert_eq!(
        plan_step("/opt/tool", "bin/tool", Some(b"abc".to_vec())),
        Ok(ExtractStep::WriteFile { path: "/opt/tool/bin/tool".to_string(), content: b"abc".to_vec() })
    );
}

#[test]
fn step_for_a_file_without_content_fails() {
    assert_eq!(plan_step("/opt/tool", "bin/tool", None), Err(ExtractError::EntryRead));
}

#[test]
fn step_for_a_directory_needs_no_content() {
    let want = Ok(ExtractStep::CreateDir { path: "/opt/tool/bin".to_string() });
    assert_eq!(plan_step("/opt/tool", "bin/", None), want);
    assert_eq!(plan_step("/opt/tool", "bin/", Some(Vec::new())), want);
    assert_eq!(plan_step("/opt/tool", "bin\\", Some(b"ignored".to_vec())), want);
}

#[test]
fn step_for_an_unsafe_name_is_refused_whatever_it_holds() {
    assert_eq!(plan_step("/opt/tool", "../x", Some(b"abc".to_vec())), Err(ExtractError::UnsafePath));
    assert_eq!(plan_step("/opt/tool", "../x", None), Err(ExtractError::UnsafePath));
    assert_eq!(plan_step("/opt/tool", "/x/", None), Err(ExtractError::UnsafePath));
}
