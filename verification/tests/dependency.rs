use licensebat::dependency::{
    clone_suggestions, clone_text, clone_texts, Comment, Dependency, RetrievedDependency,
    NO_LICENSE, NO_LICENSE_COMMENT,
};
use licensebat::score::Score;

fn new_record(
    licenses: Option<Vec<String>>,
    error: Option<String>,
    comment: Option<Comment>,
) -> RetrievedDependency {
    RetrievedDependency::new(
        "exit".to_string(),
        "0.1.2".to_string(),
        "npm".to_string(),
        Some("https://www.npmjs.com/package/exit/v/0.1.2".to_string()),
        licenses,
        error,
        comment,
        None,
        Some(true),
        Some(false),
    )
}

#[test]
fn dependency_new_knows_no_kind() {
    let dep = Dependency::new("exit", "0.1.2");
    assert_eq!(dep.name, "exit");
    assert_eq!(dep.version, "0.1.2");
    assert_eq!(dep.is_dev, None);
    assert_eq!(dep.is_optional, None);
    assert_eq!(dep.clone(), dep);
    assert_eq!(Dependency::default(), Dependency::new("", ""));
}

#[test]
fn comments_differ_in_removal_only() {
    let removable = Comment::removable("text");
    assert_eq!(removable.text, "text");
    assert!(removable.remove_when_valid);
    let fixed = Comment::non_removable("text");
    assert_eq!(fixed.text, "text");
    assert!(!fixed.remove_when_valid);
    assert_eq!(Comment::default(), Comment::non_removable(""));
    assert_eq!(removable.clone(), removable);
}

#[test]
fn record_with_licenses_is_valid() {
    let record = new_record(Some(vec!["MIT".to_string()]), None, None);
    assert_eq!(record.name, "exit");
    assert_eq!(record.version, "0.1.2");
    assert_eq!(record.dependency_type, "npm");
    assert_eq!(record.url, Some("https://www.npmjs.com/package/exit/v/0.1.2".to_string()));
    assert_eq!(record.licenses, Some(vec!["MIT".to_string()]));
    assert!(!record.validated);
    assert!(record.is_valid);
    assert!(!record.is_ignored);
    assert_eq!(record.error, None);
    assert_eq!(record.comment, None);
    assert_eq!(record.suggested_licenses, None);
    assert_eq!(record.is_dev, Some(true));
    assert_eq!(record.is_optional, Some(false));
}

#[test]
fn record_without_licenses_says_so() {
    let record = new_record(None, None, None);
    assert!(!record.is_valid);
    assert_eq!(record.licenses, None);
    assert_eq!(record.error, Some("No License".to_string()));
    assert_eq!(NO_LICENSE, "No License");
    assert_eq!(record.comment, Some(Comment::removable(NO_LICENSE_COMMENT)));
    assert!(NO_LICENSE_COMMENT.starts_with("Consider manually checking this dependency's license."));
}

#[test]
fn record_with_error_is_invalid() {
    let record = new_record(Some(vec!["MIT".to_string()]), Some("boom".to_string()), None);
    assert!(!record.is_valid);
    assert_eq!(record.error, Some("boom".to_string()));
    assert_eq!(record.comment, None);
    assert_eq!(record.licenses, Some(vec!["MIT".to_string()]));
}

#[test]
fn record_keeps_what_the_lookup_said() {
    let said = Comment::non_removable("said");
    let record = new_record(None, Some("boom".to_string()), Some(said.clone()));
    assert!(!record.is_valid);
    assert_eq!(record.error, Some("boom".to_string()));
    assert_eq!(record.comment, Some(said));
    let record = new_record(None, Some("boom".to_string()), None);
    assert_eq!(record.error, Some("boom".to_string()));
    assert_eq!(record.comment, Some(Comment::removable(NO_LICENSE_COMMENT)));
}

#[test]
fn record_keeps_suggestions() {
    let score = Score::from_bits(0.5f32.to_bits()).unwrap();
    let record = RetrievedDependency::new(
        "a".into(),
        "1".into(),
        "dart".into(),
        None,
        Some(vec![]),
        None,
        None,
        Some(vec![("MIT".to_string(), score)]),
        None,
        None,
    );
    assert!(record.is_valid);
    assert_eq!(record.licenses, Some(vec![]));
    assert_eq!(record.suggested_licenses, Some(vec![("MIT".to_string(), score)]));
    assert_eq!(record.clone(), record);
}

#[test]
fn default_record_is_empty() {
    let record = RetrievedDependency::default();
    assert_eq!(record.name, "");
    assert_eq!(record.licenses, None);
    assert!(!record.is_valid);
    assert!(!record.validated);
    assert!(!record.is_ignored);
    assert_eq!(record.error, None);
    assert_eq!(record.comment, None);
}

#[test]
fn copies_are_equal() {
    assert_eq!(clone_text(&Some("a".to_string())), Some("a".to_string()));
    assert_eq!(clone_text(&None), None);
    let texts = vec!["a".to_string(), "".to_string(), "b".to_string()];
    assert_eq!(clone_texts(&texts), texts);
    assert_eq!(clone_texts(&vec![]), Vec::<String>::new());
    let score = Score::from_bits(0).unwrap();
    let suggestions = vec![("a".to_string(), score), ("b".to_string(), score)];
    assert_eq!(clone_suggestions(&suggestions), suggestions);
}
