use std::io::Read;
use std::io::Write;

use nomver::gzip::decompress;
use nomver::pipeline::Action;
use nomver::pipeline::Event;
use nomver::pipeline::Pipeline;
use nomver::InstallError;

fn tar_with_one_file(name: &str, content: &str) -> Vec<u8> {
    let mut builder = tar::Builder::new(Vec::new());
    let mut header = tar::Header::new_gnu();
    header.set_size(content.len() as u64);
    header.set_mode(0o644);
    builder
        .append_data(&mut header, name, content.as_bytes())
        .unwrap();
    builder.into_inner().unwrap()
}

fn gzip_bytes(data: &[u8]) -> Vec<u8> {
    let mut encoder = libflate::gzip::Encoder::new(Vec::new()).unwrap();
    encoder.write_all(data).unwrap();
    encoder.finish().into_result().unwrap()
}

fn entry_contents(tar_bytes: &[u8]) -> Vec<(String, String)> {
    let mut archive = tar::Archive::new(tar_bytes);
    let mut out = Vec::new();
    for entry in archive.entries().unwrap() {
        let mut entry = entry.unwrap();
        let name = entry.path().unwrap().to_string_lossy().into_owned();
        let mut content = String::new();
        entry.read_to_string(&mut content).unwrap();
        out.push((name, content));
    }
    out
}

/// Drives a fresh pipeline up to the point where the download response is
/// pending, and returns it together with the actions seen so far.
fn pipeline_awaiting_download() -> (Pipeline, Vec<Action>) {
    let (mut pipeline, first) = Pipeline::new(String::from("v1.0.0"));
    assert!(matches!(first, Action::FindHome));
    let ensure = pipeline.step(Event::HomeFound {
        home: String::from("/tmp/home"),
    });
    match &ensure {
        Action::EnsureDir { dir } => assert_eq!(dir, "/tmp/home/.nom/v1.0.0"),
        other => panic!("expected EnsureDir, got {:?}", other),
    }
    let download = pipeline.step(Event::DirReady);
    match &download {
        Action::Download { url } => assert_eq!(
            url,
            "https://nodejs.org/dist/v1.0.0/node-v1.0.0-darwin-x64.tar.gz"
        ),
        other => panic!("expected Download, got {:?}", other),
    }
    (pipeline, vec![first, ensure, download])
}

fn writes_disk(action: &Action) -> bool {
    matches!(action, Action::WriteArchive { .. } | Action::Unpack { .. })
}

#[test]
fn round_trip_install_extracts_file_contents() {
    let tar_bytes = tar_with_one_file("a.txt", "hello");
    let compressed = gzip_bytes(&tar_bytes);
    assert_ne!(compressed, tar_bytes);

    let (mut pipeline, _) = pipeline_awaiting_download();
    let write = pipeline.step(Event::Response {
        status: 200,
        body: compressed,
    });
    let (file, data) = match write {
        Action::WriteArchive { file, data } => (file, data),
        other => panic!("expected WriteArchive, got {:?}", other),
    };
    assert_eq!(file, "/tmp/home/.nom/v1.0.0.tar");
    assert_eq!(data, tar_bytes);
    assert_eq!(
        entry_contents(&data),
        vec![(String::from("a.txt"), String::from("hello"))]
    );

    let unpack = pipeline.step(Event::FileWritten);
    match unpack {
        Action::Unpack { file, dir } => {
            assert_eq!(file, "/tmp/home/.nom/v1.0.0.tar");
            assert_eq!(dir, "/tmp/home/.nom/v1.0.0");
        }
        other => panic!("expected Unpack, got {:?}", other),
    }

    let done = pipeline.step(Event::Unpacked);
    assert!(matches!(done, Action::Succeed));
}

#[test]
fn decompress_recovers_the_compressed_payload() {
    let payload = b"some archive payload".to_vec();
    let compressed = gzip_bytes(&payload);
    assert_ne!(compressed, payload);
    assert_eq!(decompress(&compressed).unwrap(), payload);
}

#[test]
fn malformed_gzip_fails_decompression() {
    let garbage = vec![1u8, 2, 3, 4, 5];
    assert_eq!(
        decompress(&garbage).unwrap_err(),
        InstallError::DecompressionFailed
    );
}

#[test]
fn truncated_gzip_fails_decompression() {
    let compressed = gzip_bytes(b"hello world hello world");
    let truncated = compressed[..compressed.len() - 4].to_vec();
    assert_eq!(
        decompress(&truncated).unwrap_err(),
        InstallError::DecompressionFailed
    );
}

#[test]
fn malformed_gzip_halts_install_before_any_write() {
    let (mut pipeline, mut actions) = pipeline_awaiting_download();
    let last = pipeline.step(Event::Response {
        status: 200,
        body: vec![0u8, 1, 2, 3],
    });
    assert!(matches!(
        last,
        Action::Fail {
            error: InstallError::DecompressionFailed
        }
    ));
    actions.push(last);
    assert!(actions.iter().all(|a| !writes_disk(a)));
}

#[test]
fn network_failure_halts_install_before_any_write() {
    let (mut pipeline, mut actions) = pipeline_awaiting_download();
    let last = pipeline.step(Event::ConnectionFailed);
    assert!(matches!(
        last,
        Action::Fail {
            error: InstallError::NetworkError
        }
    ));
    actions.push(last);
    assert!(actions.iter().all(|a| !writes_disk(a)));
}

#[test]
fn non_success_status_is_remote_archive_unavailable() {
    let tar_bytes = tar_with_one_file("a.txt", "hello");
    let (mut pipeline, _) = pipeline_awaiting_download();
    let last = pipeline.step(Event::Response {
        status: 404,
        body: gzip_bytes(&tar_bytes),
    });
    assert!(matches!(
        last,
        Action::Fail {
            error: InstallError::RemoteArchiveUnavailable
        }
    ));
}

#[test]
fn missing_home_fails_install() {
    let (mut pipeline, _) = Pipeline::new(String::from("v1.0.0"));
    let last = pipeline.step(Event::HomeMissing);
    assert!(matches!(
        last,
        Action::Fail {
            error: InstallError::NoHomeDirectory
        }
    ));
}

#[test]
fn dir_creation_failure_fails_install() {
    let (mut pipeline, _) = Pipeline::new(String::from("v1.0.0"));
    pipeline.step(Event::HomeFound {
        home: String::from("/tmp/home"),
    });
    let last = pipeline.step(Event::DirError);
    assert!(matches!(
        last,
        Action::Fail {
            error: InstallError::DirectoryCreationFailed
        }
    ));
}

#[test]
fn file_write_failure_fails_install() {
    let tar_bytes = tar_with_one_file("a.txt", "hello");
    let (mut pipeline, _) = pipeline_awaiting_download();
    pipeline.step(Event::Response {
        status: 200,
        body: gzip_bytes(&tar_bytes),
    });
    let last = pipeline.step(Event::FileError);
    assert!(matches!(
        last,
        Action::Fail {
            error: InstallError::FileWriteFailed
        }
    ));
}

#[test]
fn unpack_failure_fails_install() {
    let tar_bytes = tar_with_one_file("a.txt", "hello");
    let (mut pipeline, _) = pipeline_awaiting_download();
    pipeline.step(Event::Response {
        status: 200,
        body: gzip_bytes(&tar_bytes),
    });
    pipeline.step(Event::FileWritten);
    let last = pipeline.step(Event::UnpackError);
    assert!(matches!(
        last,
        Action::Fail {
            error: InstallError::UnpackFailed
        }
    ));
}
