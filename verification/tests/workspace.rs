use workspace_panes::pane::Pane;
use workspace_panes::workspace::{
    classify, pane_urls, resolve, resolve_targets, workspace_value, PaneTargets, Target, WorkspaceConfig,
};

fn value(text: &str) -> serde_json::Value {
    serde_json::from_str(text).unwrap()
}

fn some(text: &str) -> Option<String> {
    Some(text.to_string())
}

#[test]
fn pane_urls_reads_all_four_panes() {
    let config = pane_urls(&value(
        r#"{"main1": {"url": "https://1.test"}, "main2": {"url": "https://2.test"},
            "main3": {"url": "https://3.test"}, "main4": {"url": "https://4.test"}}"#,
    ));
    assert_eq!(
        config,
        WorkspaceConfig {
            main1: some("https://1.test"),
            main2: some("https://2.test"),
            main3: some("https://3.test"),
            main4: some("https://4.test"),
        }
    );
}

#[test]
fn pane_urls_allows_missing_panes() {
    let config = pane_urls(&value(r#"{"main1": {"url":"https://a.test"}, "main2": {"url":"https://b.test"}}"#));
    assert_eq!(
        config,
        WorkspaceConfig { main1: some("https://a.test"), main2: some("https://b.test"), main3: None, main4: None }
    );
    let empty = pane_urls(&value("{}"));
    assert_eq!(empty, WorkspaceConfig { main1: None, main2: None, main3: None, main4: None });
}

#[test]
fn pane_urls_passes_over_other_shapes() {
    let config = pane_urls(&value(
        r#"{"main1": "https://a.test", "main2": {"url": 5}, "main3": {"URL": "https://c.test"},
            "main4": {"url": "https://d.test", "zoom": 2}, "main5": {"url": "https://e.test"},
            "svelte_app": {"url": "https://f.test"}}"#,
    ));
    assert_eq!(config, WorkspaceConfig { main1: None, main2: None, main3: None, main4: some("https://d.test") });
}

#[test]
fn pane_urls_of_a_value_that_is_no_object() {
    let nothing = WorkspaceConfig { main1: None, main2: None, main3: None, main4: None };
    for text in ["[]", "null", "\"main1\"", "7", "[{\"main1\": {\"url\": \"x\"}}]"].iter() {
        assert_eq!(pane_urls(&value(text)), nothing);
    }
}

#[test]
fn pane_urls_keeps_the_text_as_it_is() {
    let config = pane_urls(&value(r#"{"main2": {"url": "not a url"}, "main3": {"url": ""}}"#));
    assert_eq!(config.main2, some("not a url"));
    assert_eq!(config.main3, some(""));
}

#[test]
fn config_url_of_each_pane() {
    let config = WorkspaceConfig { main1: some("a"), main2: None, main3: some("c"), main4: some("d") };
    assert_eq!(config.url_of(Pane::Main1), Some(&"a".to_string()));
    assert_eq!(config.url_of(Pane::Main2), None);
    assert_eq!(config.url_of(Pane::Main3), Some(&"c".to_string()));
    assert_eq!(config.url_of(Pane::Main4), Some(&"d".to_string()));
    assert_eq!(config.url_of(Pane::Control), None);
}

#[test]
fn workspace_value_writes_one_entry_per_url() {
    let config = WorkspaceConfig { main1: some("https://a.test"), main2: None, main3: None, main4: some("x") };
    assert_eq!(workspace_value(&config), value(r#"{"main1": {"url": "https://a.test"}, "main4": {"url": "x"}}"#));
    let nothing = WorkspaceConfig { main1: None, main2: None, main3: None, main4: None };
    assert_eq!(workspace_value(&nothing), value("{}"));
}

#[test]
fn workspace_written_and_read_back_is_unchanged() {
    let configs = [
        WorkspaceConfig { main1: some("https://1.test"), main2: some("2"), main3: some(""), main4: some("4") },
        WorkspaceConfig { main1: None, main2: some("https://b.test"), main3: None, main4: None },
        WorkspaceConfig { main1: None, main2: None, main3: None, main4: None },
    ];
    for config in configs.iter() {
        assert_eq!(pane_urls(&workspace_value(config)), *config);
    }
}

#[test]
fn resolve_judges_urls() {
    assert_eq!(resolve(None), Target::Keep);
    assert_eq!(resolve(Some(&"https://a.test".to_string())), Target::Open("https://a.test".to_string()));
    assert_eq!(resolve(Some(&"about:blank".to_string())), Target::Open("about:blank".to_string()));
    assert_eq!(resolve(Some(&"not a url".to_string())), Target::Malformed);
    assert_eq!(resolve(Some(&"".to_string())), Target::Malformed);
    assert_eq!(resolve(Some(&"/relative/path".to_string())), Target::Malformed);
    assert_eq!(resolve(Some(&"https://".to_string())), Target::Malformed);
}

#[test]
fn classify_follows_the_verdict() {
    let url = "anything".to_string();
    assert_eq!(classify(None, true), Target::Keep);
    assert_eq!(classify(None, false), Target::Keep);
    assert_eq!(classify(Some(&url), true), Target::Open("anything".to_string()));
    assert_eq!(classify(Some(&url), false), Target::Malformed);
}

#[test]
fn resolve_targets_decides_each_pane() {
    let config = WorkspaceConfig { main1: some("https://a.test"), main2: None, main3: some("::"), main4: some("x:y") };
    let targets = resolve_targets(&config);
    assert_eq!(
        targets,
        PaneTargets {
            main1: Target::Open("https://a.test".to_string()),
            main2: Target::Keep,
            main3: Target::Malformed,
            main4: Target::Open("x:y".to_string()),
        }
    );
    assert_eq!(targets.get(Pane::Main1), Some(&Target::Open("https://a.test".to_string())));
    assert_eq!(targets.get(Pane::Main2), Some(&Target::Keep));
    assert_eq!(targets.get(Pane::Main3), Some(&Target::Malformed));
    assert_eq!(targets.get(Pane::Main4), Some(&Target::Open("x:y".to_string())));
    assert_eq!(targets.get(Pane::Control), None);
}
