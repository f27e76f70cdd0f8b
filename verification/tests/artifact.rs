use plandb::artifact::{
    artifact_size, content_source, read_display, select_artifact, ArtifactError, ContentSource,
    WriteArtifactArgs,
};

fn args(file: Option<&str>, content: Option<&str>) -> WriteArtifactArgs {
    WriteArtifactArgs {
        task: "t-1".to_string(),
        name: "notes".to_string(),
        file: file.map(|f| f.to_string()),
        content: content.map(|c| c.to_string()),
        kind: None,
        mime: None,
    }
}

#[test]
fn content_is_preferred_over_file() {
    assert!(matches!(content_source(&args(Some("a.txt"), Some("hi"))), Ok(ContentSource::Inline(c)) if c == "hi"));
    assert!(matches!(content_source(&args(Some("a.txt"), None)), Ok(ContentSource::File(p)) if p == "a.txt"));
}

#[test]
fn missing_content_is_refused() {
    let err = content_source(&args(None, None)).unwrap_err();
    assert!(matches!(err, ArtifactError::NoContent));
    assert_eq!(err.message(), "provide --file or --content");
}

#[test]
fn sizes() {
    assert_eq!(artifact_size(Some(1234), Some("ignored")), Some(1234));
    assert_eq!(artifact_size(None, Some("héllo")), Some(6));
    assert_eq!(artifact_size(None, None), None);
}

#[test]
fn read_picks_last_artifact_with_name() {
    let names = vec!["a".to_string(), "b".to_string(), "a".to_string(), "c".to_string()];
    assert_eq!(select_artifact(&names, "a"), Some(2));
    assert_eq!(select_artifact(&names, "c"), Some(3));
    assert_eq!(select_artifact(&names, "z"), None);
}

#[test]
fn not_found_message() {
    let err = ArtifactError::NotFound { task: "t-9".to_string(), name: "log".to_string() };
    assert_eq!(err.message(), "artifact not found: task=t-9 name=log");
}

#[test]
fn read_display_choices() {
    assert_eq!(read_display(Some("body"), Some("/tmp/x")), "body");
    assert_eq!(read_display(None, Some("/tmp/x")), "artifact path: /tmp/x");
    assert_eq!(read_display(None, None), "artifact has no content");
}
