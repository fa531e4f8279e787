use nomver::build_url;

#[test]
fn formats_url_correctly() {
    let expected_url = "https://nodejs.org/dist/v1.0.0/node-v1.0.0-darwin-x64.tar.gz";
    let actual_url = build_url("v1.0.0");
    assert_eq!(expected_url, actual_url)
}

#[test]
fn url_builder_is_deterministic() {
    assert_eq!(build_url("v22.1.0"), build_url("v22.1.0"));
}

#[test]
fn url_embeds_the_version_twice() {
    assert_eq!(
        build_url("v8.11.3"),
        "https://nodejs.org/dist/v8.11.3/node-v8.11.3-darwin-x64.tar.gz"
    );
}
