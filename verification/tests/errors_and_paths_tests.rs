use rustfuscator::errors::ObfuscatorError;
use rustfuscator::paths::ensure_rust_file;

#[test]
fn display_encryption_error() {
    let encryption_err = ObfuscatorError::EncryptionError;

    let displayed = encryption_err.message();

    assert!(displayed.contains("Encryption failed :("));
}

#[test]
fn display_inv_file_ext() {
    let test_file_path = "./test.txt";

    let inv_file_ext_err = ObfuscatorError::InvalidFileExtension {
        path: String::from(test_file_path),
    };

    let displayed = inv_file_ext_err.message();

    assert!(
        displayed.contains(test_file_path),
        "Expected output contains: '{}',got: {}",
        test_file_path,
        displayed
    );
}

#[test]
fn accepts_valid_rust_file_names() {
    let valid = ["file_1.rs", "file_2.rs", "dir/inner.rs", "UPPER.RS", "x.rS"];
    for name in valid {
        assert!(ensure_rust_file(name).is_ok(), "{name} must be accepted");
    }
}

#[test]
fn rejects_invalid_rust_file_names() {
    let invalid = ["file.r", "file.s", "file.sr", "file.rsrs", "file.rs_rs", ".rs", "file.txt",
        "dir/.rs", ""];
    for name in invalid {
        let got = ensure_rust_file(name);
        match got {
            Ok(()) => panic!("{name} must be rejected"),
            Err(ObfuscatorError::InvalidFileExtension { path }) => assert_eq!(path, name),
            Err(e) => panic!("unexpected error: {:?}", e),
        }
    }
}
