use nomver::InstallError;

fn all_errors() -> Vec<InstallError> {
    vec![
        InstallError::NoHomeDirectory,
        InstallError::DirectoryCreationFailed,
        InstallError::NetworkError,
        InstallError::RemoteArchiveUnavailable,
        InstallError::DecompressionFailed,
        InstallError::FileWriteFailed,
        InstallError::UnpackFailed,
    ]
}

#[test]
fn exit_codes_are_nonzero_and_distinct() {
    let errors = all_errors();
    for e in &errors {
        assert_ne!(e.exit_code(), 0);
    }
    for (i, a) in errors.iter().enumerate() {
        for (j, b) in errors.iter().enumerate() {
            if i != j {
                assert_ne!(a.exit_code(), b.exit_code());
            }
        }
    }
}

#[test]
fn every_error_has_a_message() {
    for e in all_errors() {
        assert!(!e.message().is_empty());
    }
}

#[test]
fn network_error_message_is_fixed() {
    assert_eq!(
        InstallError::NetworkError.message(),
        "Could not reach the distribution server"
    );
}
