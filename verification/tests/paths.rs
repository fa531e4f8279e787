use nomver::paths::archive_file;
use nomver::paths::install_dir;

#[test]
fn composes_install_path() {
    assert_eq!(install_dir("/tmp/home", "v1.0.0"), "/tmp/home/.nom/v1.0.0");
}

#[test]
fn install_path_resolution_is_repeatable() {
    let first = install_dir("/home/someone", "v10.2.1");
    let second = install_dir("/home/someone", "v10.2.1");
    assert_eq!(first, second);
}

#[test]
fn archive_file_sits_beside_the_install_dir() {
    let dir = install_dir("/tmp/home", "v1.0.0");
    let file = archive_file(&dir);
    assert_eq!(file, "/tmp/home/.nom/v1.0.0.tar");
    assert_ne!(file, dir);
    assert!(!file.starts_with(&format!("{}/", dir)));
}
