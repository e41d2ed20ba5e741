use delta_simple::error::SimpleError;
use delta_simple::location::{commit_url, with_trailing_slash};
use url::Url;

fn commit_of(root: &str) -> String {
    commit_url(&Url::parse(root).unwrap()).unwrap().to_string()
}

#[test]
fn the_commit_goes_below_the_root() {
    assert_eq!(
        commit_of("file:///tmp/table/"),
        "file:///tmp/table/_delta_log/00000000000000000000.json"
    );
    assert_eq!(commit_of("memory:///"), "memory:///_delta_log/00000000000000000000.json");
    assert_eq!(
        commit_of("s3://bucket/a%20b/table"),
        "s3://bucket/a%20b/table/_delta_log/00000000000000000000.json"
    );
}

#[test]
fn a_trailing_slash_is_optional() {
    for root in [
        "file:///tmp/table",
        "https://host:8080/t",
        "s3://bucket",
        "file:///c:/t",
        "file:///c:",
        "file:///c|/t",
        "file:///d/10:30/t",
        "file:///d/c:/t",
        "file://[::1]/t",
        "file://host/d/c:",
        "https://xn--mnchen-3ya.de/t",
        "memory:/.//a",
    ] {
        let ended = format!("{root}/");
        assert_eq!(commit_of(root), commit_of(&ended));
        assert_eq!(commit_of(root), format!("{root}/_delta_log/00000000000000000000.json"));
        let parsed = Url::parse(&ended).unwrap();
        assert_eq!(parsed.as_str(), ended);
        assert_eq!(commit_url(&parsed).unwrap().as_str(), commit_of(root));
    }
}

#[test]
fn a_drive_letter_behind_a_host_takes_its_place() {
    let root = Url::parse("file://host//c:").unwrap();
    assert_eq!(root.as_str(), "file://host/c:");
    let parsed = Url::parse("file://host/c:/").unwrap();
    assert_eq!(parsed.as_str(), "file:///c:/");
    assert_eq!(commit_url(&root).unwrap(), commit_url(&parsed).unwrap());
    assert_eq!(commit_of("file://host//c:"), "file:///c:/_delta_log/00000000000000000000.json");
}

#[test]
fn a_root_that_does_not_parse_anew_is_refused() {
    let label: String = (0..900u32)
        .map(|i| char::from_u32(0x4e00 + (i * 7919) % 20000).unwrap())
        .collect();
    let root = Url::parse(&format!("https://{label}/")).unwrap();
    let error = commit_url(&root).err().unwrap();
    assert!(matches!(error, SimpleError::Root(url::ParseError::IdnaError)));
    assert_eq!(error.message(), Some("failed to normalize table root"));
}

#[test]
fn a_query_takes_the_slash() {
    assert_eq!(
        commit_of("https://host/a/b?version=1"),
        "https://host/a/_delta_log/00000000000000000000.json"
    );
}

#[test]
fn an_empty_authority_keeps_its_slashes() {
    assert_eq!(commit_of("memory://"), "memory:///_delta_log/00000000000000000000.json");
}

#[test]
fn an_opaque_root_is_refused() {
    let error = commit_url(&Url::parse("mailto:someone@host").unwrap()).err().unwrap();
    assert!(matches!(
        error,
        SimpleError::Commit(url::ParseError::RelativeUrlWithCannotBeABaseBase)
    ));
    assert_eq!(error.message(), Some("failed to resolve commit file"));
}

#[test]
fn a_slash_is_put_once() {
    assert_eq!(with_trailing_slash("a".to_string()), "a/");
    assert_eq!(with_trailing_slash("a/".to_string()), "a/");
    assert_eq!(with_trailing_slash("a//".to_string()), "a//");
    assert_eq!(with_trailing_slash("ü".to_string()), "ü/");
    assert_eq!(with_trailing_slash(String::new()), "/");
}

#[test]
fn a_url_that_was_changed_is_parsed_anew() {
    let mut root = Url::parse("foo:/x").unwrap();
    root.set_path("//table/");
    let parsed = Url::parse(root.as_str()).unwrap();
    assert_eq!(commit_url(&root).unwrap(), commit_url(&parsed).unwrap());
}
