use licensebat::dependency::{Comment, Dependency};
use licensebat::licrc::{LicRc, LicRcLicenses};
use licensebat::retriever::crates_io::{crates_io_retrieved_dependency, CratesIo};
use licensebat::retriever::docs_rs::{
    docs_rs_url, get_first_piece, get_license_declaration, get_license_from_docs_rs,
    get_license_text, get_retrieved_dependency_from_license_file, get_values, get_variable,
    DocsRs,
};
use licensebat::retriever::{LicenseMatch, Next, Request};
use licensebat::score::Score;

const AGENT: &str = "licensebat-cli (licensebat.com)";

fn page(code: &str) -> String {
    format!(
        "<!DOCTYPE html><html><head><title>t</title></head><body><div class=\"container\"><div id=\"source-code\"><pre><code>{}</code></pre></div></div></body></html>",
        code
    )
}

fn manifest(lines: &[(&str, &str)]) -> String {
    let mut code = String::from("<span><span>[</span>package<span>]</span></span>\n");
    for (key, value) in lines {
        code.push_str(&format!(
            "<span><span>{}</span></span> <span>=</span> <span>\"{}\"</span>\n",
            key, value
        ));
    }
    page(&code)
}

fn dependency() -> Dependency {
    Dependency::new("ring", "0.16.20")
}

fn texts(items: &[&str]) -> Vec<String> {
    items.iter().map(|s| s.to_string()).collect()
}

fn failure(next: Next) -> String {
    match next {
        Next::Done(record) => {
            assert_eq!(record.licenses, None);
            assert!(!record.is_valid);
            assert_eq!(record.name, "ring");
            assert_eq!(record.version, "0.16.20");
            assert_eq!(record.dependency_type, "rust");
            assert_eq!(record.url, Some("https://crates.io/crates/ring/0.16.20".to_string()));
            assert!(record.comment.unwrap().remove_when_valid);
            assert_eq!(record.suggested_licenses, None);
            record.error.unwrap()
        }
        other => panic!("{:?}", other),
    }
}

#[test]
fn source_url() {
    assert_eq!(docs_rs_url("ring", "0.16.20"), "https://docs.rs/crate/ring/0.16.20/source/");
    assert_eq!(docs_rs_url("", ""), "https://docs.rs/crate///source/");
}

#[test]
fn lookup_begins_at_the_manifest() {
    assert_eq!(
        DocsRs::new(true).get_dependency(&dependency()),
        Request {
            url: "https://docs.rs/crate/ring/0.16.20/source/Cargo.toml".to_string(),
            user_agent: AGENT.to_string(),
        }
    );
}

#[test]
fn declaration_is_the_first_license_line() {
    let d = |pieces: &[&str]| get_license_declaration(&texts(pieces));
    let some = |k: &str, v: &str| Some((k.to_string(), v.to_string()));
    assert_eq!(d(&["name", "=", "\"a\"", "license", "=", "\"MIT\""]), some("license", "MIT"));
    assert_eq!(d(&["license-file", "=", "\"LICENSE\"", "license", "=", "\"MIT\""]), some("license-file", "LICENSE"));
    assert_eq!(d(&["license = \"MIT OR Apache-2.0\""]), some("license", "MIT OR Apache-2.0"));
    assert_eq!(d(&["name = \"a\"\nlicense=\"ISC\"\nversion = \"1\""]), some("license", "ISC"));
    assert_eq!(d(&["license = \"a\" = b"]), some("license", "a"));
    assert_eq!(d(&["license\t =  MIT \r"]), some("license", "MIT"));
    assert_eq!(d(&["licenses = \"x\""]), some("licenses", "x"));
    assert_eq!(d(&["license ="]), some("license", ""));
    assert_eq!(d(&["name", "=", "\"a\""]), None);
    assert_eq!(d(&[]), None);
    assert_eq!(d(&[" license = \"MIT\""]), None);
    assert_eq!(d(&["license"]), None);
    assert_eq!(d(&["license", "license = \"MIT\""]), None);
    assert_eq!(d(&["license", "=", "\"MIT\"", "=", "x"]), some("license", "MIT"));
}

#[test]
fn variables_of_a_match() {
    let found = vec![("a".to_string(), "1".to_string()), ("value".to_string(), "2".to_string())];
    assert_eq!(get_variable(&found, "value"), Some("2".to_string()));
    assert_eq!(get_variable(&found, "a"), Some("1".to_string()));
    assert_eq!(get_variable(&found, "b"), None);
    assert_eq!(get_variable(&vec![], "value"), None);
    let matches = vec![found.clone(), vec![], vec![("value".to_string(), "3".to_string())]];
    assert_eq!(get_values(&matches), texts(&["2", "3"]));
    assert_eq!(get_values(&vec![]), Vec::<String>::new());
}

#[test]
fn declared_license_is_the_license() {
    let html = manifest(&[("name", "futurify"), ("version", "0.2.0"), ("license", "MIT")]);
    match DocsRs::new(false).on_manifest(&Dependency::new("futurify", "0.2.0"), Ok(html)) {
        Next::Done(record) => {
            assert_eq!(record.licenses, Some(vec!["MIT".to_string()]));
            assert!(record.is_valid);
            assert_eq!(record.dependency_type, "rust");
            assert_eq!(record.name, "futurify");
            assert_eq!(record.version, "0.2.0");
            assert_eq!(record.url, Some("https://crates.io/crates/futurify/0.2.0".to_string()));
            assert_eq!(record.error, None);
            assert_eq!(record.comment, None);
            assert!(record.suggested_licenses.is_none());
        }
        other => panic!("{:?}", other),
    }
}

#[test]
fn license_file_is_fetched_where_the_licenses_are_known() {
    let html = manifest(&[("name", "ring"), ("license-file", "LICENSE")]);
    assert_eq!(
        DocsRs::new(true).on_manifest(&dependency(), Ok(html)),
        Next::Fetch(Request {
            url: "https://docs.rs/crate/ring/0.16.20/source/LICENSE".to_string(),
            user_agent: AGENT.to_string(),
        })
    );
}

#[test]
fn license_file_is_left_alone_without_known_licenses() {
    let html = manifest(&[("name", "ring"), ("license-file", "LICENSE")]);
    assert_eq!(failure(DocsRs::new(false).on_manifest(&dependency(), Ok(html))), "No askalono store present");
}

#[test]
fn manifest_without_license_ends_the_lookup() {
    let html = manifest(&[("name", "ring"), ("version", "0.16.20")]);
    assert_eq!(
        failure(DocsRs::new(true).on_manifest(&dependency(), Ok(html))),
        "No information found in Cargo.toml regarding license or license-file."
    );
    assert_eq!(
        failure(DocsRs::new(true).on_manifest(&dependency(), Ok("<html><body>404</body></html>".to_string()))),
        "No information found in Cargo.toml regarding license or license-file."
    );
    assert_eq!(
        failure(DocsRs::new(true).on_manifest(&dependency(), Ok(String::new()))),
        "No information found in Cargo.toml regarding license or license-file."
    );
}

#[test]
fn unknown_license_key_ends_the_lookup() {
    let html = manifest(&[("licensed", "MIT")]);
    assert_eq!(
        failure(DocsRs::new(true).on_manifest(&dependency(), Ok(html))),
        "Unexpected license key while parsing cargo.toml"
    );
}

#[test]
fn failed_fetch_of_the_manifest_ends_the_lookup() {
    assert_eq!(failure(DocsRs::new(true).on_manifest(&dependency(), Err("dns".to_string()))), "dns");
}

#[test]
fn license_file_request_needs_known_licenses() {
    let url = "https://docs.rs/crate/ring/0.16.20/source/".to_string();
    assert_eq!(
        get_retrieved_dependency_from_license_file(true, url.clone(), "LICENSE".to_string(), &dependency()),
        Next::Fetch(Request { url: format!("{}LICENSE", url), user_agent: AGENT.to_string() })
    );
    assert_eq!(
        failure(get_retrieved_dependency_from_license_file(false, url, "LICENSE".to_string(), &dependency())),
        "No askalono store present"
    );
}

#[test]
fn license_text_is_laid_out_as_plain_text() {
    let html = page("Permission is hereby granted, free of charge");
    assert_eq!(get_license_text(&html), Some("Permission is hereby granted, free of charge\n".to_string()));
    assert_eq!(get_license_from_docs_rs(&html), get_license_text(&html));
    assert_eq!(get_license_text("<html><body>404</body></html>"), None);
    assert_eq!(get_license_text(""), None);
    let marked = page("Permission &lt;b&gt;is&lt;/b&gt; granted");
    assert_eq!(get_license_text(&marked), Some("Permission **is** granted\n".to_string()));
}

#[test]
fn license_file_is_analysed() {
    let html = page("Permission is hereby granted, free of charge");
    let url = "https://docs.rs/crate/ring/0.16.20/source/LICENSE";
    assert_eq!(
        DocsRs::new(true).on_license_file(&dependency(), url, Ok(html)),
        Next::Analyze("Permission is hereby granted, free of charge\n".to_string())
    );
}

#[test]
fn missing_license_file_ends_the_lookup() {
    let url = "https://docs.rs/crate/ring/0.16.20/source/LICENSE";
    let expected = format!("Not declared in Cargo.toml. Check the url: {}", url);
    let docs = DocsRs::new(true);
    assert_eq!(failure(docs.on_license_file(&dependency(), url, Err("404".to_string()))), expected);
    assert_eq!(
        failure(docs.on_license_file(&dependency(), url, Ok("<html><body>no</body></html>".to_string()))),
        expected
    );
}

#[test]
fn confident_analysis_gives_the_license() {
    for value in [0.8f32, 0.9876, 1.0] {
        let score = Score::from_bits(value.to_bits()).unwrap();
        let found = LicenseMatch { name: "OpenSSL".to_string(), score };
        let record = DocsRs::new(true).on_analysis(&dependency(), &found);
        assert_eq!(record.licenses, Some(vec!["OpenSSL".to_string()]));
        assert!(record.is_valid);
        assert_eq!(record.error, None);
        assert_eq!(record.dependency_type, "rust");
        assert_eq!(record.name, "ring");
        assert_eq!(record.url, Some("https://crates.io/crates/ring/0.16.20".to_string()));
        assert_eq!(
            record.comment,
            Some(Comment::removable(&format!("Our score for this license is {:.2}%.", value * 100.0)))
        );
        assert_eq!(record.comment.as_ref().map(|c| c.text.contains("score")), Some(true));
        assert_eq!(record.suggested_licenses, Some(vec![("OpenSSL".to_string(), score)]));
    }
}

#[test]
fn doubtful_analysis_leaves_the_crate_unresolved() {
    for value in [0.71f32, 0.1, 0.0] {
        let score = Score::from_bits(value.to_bits()).unwrap();
        let found = LicenseMatch { name: "OpenSSL".to_string(), score };
        let record = DocsRs::new(true).on_analysis(&dependency(), &found);
        assert_eq!(record.licenses, None);
        assert!(!record.is_valid);
        assert_eq!(record.error, Some("Low confidence match".to_string()));
        assert_eq!(record.name, "ring");
        assert_eq!(record.version, "0.16.20");
        assert_eq!(record.dependency_type, "rust");
        assert_eq!(record.url, Some("https://crates.io/crates/ring/0.16.20".to_string()));
        assert_eq!(
            record.comment,
            Some(Comment::removable(&format!(
                "Our analysis estimated that it could be **OpenSSL** with a **{:.2}%** score.",
                value * 100.0
            )))
        );
        assert_eq!(record.suggested_licenses, Some(vec![("OpenSSL".to_string(), score)]));
    }
    let found = LicenseMatch { name: "MIT".to_string(), score: Score::from_bits(0.71f32.to_bits()).unwrap() };
    assert_eq!(
        DocsRs::new(true).on_analysis(&dependency(), &found).comment.unwrap().text,
        "Our analysis estimated that it could be **MIT** with a **71.00%** score."
    );
}

#[test]
fn the_threshold_of_a_license_file_is_eight_tenths() {
    let at = LicenseMatch { name: "ISC".to_string(), score: Score::from_bits(0.8f32.to_bits()).unwrap() };
    let below = LicenseMatch {
        name: "ISC".to_string(),
        score: Score::from_bits(0.8f32.to_bits() - 1).unwrap(),
    };
    let docs = DocsRs::new(true);
    assert_eq!(docs.on_analysis(&dependency(), &at).licenses, Some(vec!["ISC".to_string()]));
    assert!(docs.on_analysis(&dependency(), &at).is_valid);
    assert_eq!(docs.on_analysis(&dependency(), &below).licenses, None);
    assert!(!docs.on_analysis(&dependency(), &below).is_valid);
}

#[test]
fn unresolved_license_file_keeps_its_error_under_validation() {
    let found = LicenseMatch { name: "GPL-3.0".to_string(), score: Score::from_bits(0.5f32.to_bits()).unwrap() };
    let mut record = DocsRs::new(true).on_analysis(&dependency(), &found);
    let licrc = LicRc {
        licenses: LicRcLicenses { accepted: Some(vec!["MIT".to_string()]), unaccepted: None },
        ..LicRc::default()
    };
    licrc.validate(&mut record);
    assert!(record.validated);
    assert!(!record.is_valid);
    assert!(!record.is_ignored);
    assert_eq!(record.error, Some("Low confidence match".to_string()));
    assert_eq!(record.licenses, None);
}

#[test]
fn crate_records() {
    let score = Score::from_bits(0).unwrap();
    let record = crates_io_retrieved_dependency(
        &dependency(),
        Some(vec!["MIT".to_string()]),
        None,
        Some("text".to_string()),
        Some(vec![("MIT".to_string(), score)]),
    );
    assert_eq!(record.url, Some("https://crates.io/crates/ring/0.16.20".to_string()));
    assert_eq!(record.dependency_type, "rust");
    assert_eq!(record.comment, Some(Comment::removable("text")));
    assert!(record.is_valid);
    assert_eq!(record.is_dev, None);
    let record = crates_io_retrieved_dependency(&dependency(), None, Some("bad"), None, None);
    assert_eq!(record.error, Some("bad".to_string()));
    assert!(!record.is_valid);
}

#[test]
fn api_lookup_begins_at_the_api() {
    assert_eq!(
        CratesIo::new(false).get_dependency(&dependency()),
        Request {
            url: "https://crates.io/api/v1/crates/ring/0.16.20".to_string(),
            user_agent: AGENT.to_string(),
        }
    );
}

#[test]
fn api_license_is_the_license() {
    match CratesIo::new(true).on_metadata(&Dependency::new("futurify", "0.2.0"), Ok(Some("MIT".to_string()))) {
        Next::Done(record) => {
            assert_eq!(Some(vec!["MIT".to_string()]), record.licenses);
            assert_eq!(record.name, "futurify");
            assert_eq!(record.dependency_type, "rust");
            assert!(record.is_valid);
            assert_eq!(record.comment, None);
        }
        other => panic!("{:?}", other),
    }
}

#[test]
fn non_standard_license_goes_on_at_docs_rs() {
    for corpus in [true, false] {
        assert_eq!(
            CratesIo::new(corpus).on_metadata(&dependency(), Ok(Some("non-standard".to_string()))),
            Next::Fetch(DocsRs::new(corpus).get_dependency(&dependency()))
        );
    }
}

#[test]
fn api_without_license_ends_the_lookup() {
    assert_eq!(
        failure(CratesIo::new(true).on_metadata(&dependency(), Ok(None))),
        "No license found in Crates.io API"
    );
    assert_eq!(failure(CratesIo::new(true).on_metadata(&dependency(), Err("503".to_string()))), "503");
}

#[test]
fn declaration_decides() {
    let some = |k: &str, v: &str| Some((k.to_string(), v.to_string()));
    let with = DocsRs::new(true);
    let without = DocsRs::new(false);
    match without.on_declaration(&dependency(), some("license", "MIT OR Apache-2.0")) {
        Next::Done(record) => {
            assert_eq!(record.licenses, Some(vec!["MIT OR Apache-2.0".to_string()]));
            assert!(record.is_valid);
        }
        other => panic!("{:?}", other),
    }
    assert_eq!(
        with.on_declaration(&dependency(), some("license-file", "LICENSE.txt")),
        Next::Fetch(Request {
            url: "https://docs.rs/crate/ring/0.16.20/source/LICENSE.txt".to_string(),
            user_agent: AGENT.to_string(),
        })
    );
    assert_eq!(failure(without.on_declaration(&dependency(), some("license-file", "LICENSE.txt"))), "No askalono store present");
    assert_eq!(
        failure(with.on_declaration(&dependency(), None)),
        "No information found in Cargo.toml regarding license or license-file."
    );
    for key in ["licenses", "license_file", "License", ""] {
        assert_eq!(
            failure(with.on_declaration(&dependency(), some(key, "x"))),
            "Unexpected license key while parsing cargo.toml"
        );
    }
}

#[test]
fn license_text_decides() {
    let url = "https://docs.rs/crate/ring/0.16.20/source/LICENSE";
    let docs = DocsRs::new(true);
    assert_eq!(
        docs.on_license_text(&dependency(), url, Some("Permission".to_string())),
        Next::Analyze("Permission".to_string())
    );
    assert_eq!(docs.on_license_text(&dependency(), url, Some(String::new())), Next::Analyze(String::new()));
    assert_eq!(
        failure(docs.on_license_text(&dependency(), url, None)),
        format!("Not declared in Cargo.toml. Check the url: {}", url)
    );
}

#[test]
fn first_piece_of_a_page() {
    let pair = |k: &str, v: &str| (k.to_string(), v.to_string());
    assert_eq!(get_first_piece(&vec![vec![pair("value", "a")], vec![pair("value", "b")]]), Some("a".to_string()));
    assert_eq!(get_first_piece(&vec![vec![pair("other", "a")], vec![pair("value", "b")]]), None);
    assert_eq!(get_first_piece(&vec![vec![], vec![pair("value", "b")]]), None);
    assert_eq!(get_first_piece(&vec![]), None);
}
