//! What a workspace asks of the four quadrant panes.

use crate::json::{
    entries_of, json_of, new_object, no_members, object_insert, object_value, text_value, value_member, value_text, Json,
};
use crate::pane::Pane;
use vstd::prelude::*;

verus! {

/// The URL that a workspace names for a pane: the text under `url` of the
/// member that carries the pane's label. Anything of another shape names none.
pub open spec fn pane_url(workspace: Json, pane: Pane) -> Option<Seq<char>> {
    match workspace.member(pane.label_text()) {
        Some(entry) => match entry.member("url"@) {
            Some(url) => url.text(),
            None => None,
        },
        None => None,
    }
}

/// The URLs that a workspace names, by quadrant pane.
pub open spec fn configured_urls(workspace: Json) -> Map<Pane, Seq<char>> {
    Map::new(
        |pane: Pane| pane.is_quadrant() && pane_url(workspace, pane) is Some,
        |pane: Pane| pane_url(workspace, pane)->0,
    )
}

/// One workspace: for each quadrant pane the URL to show, if it names one.
#[derive(Clone, Debug, PartialEq, Eq)]
pub struct WorkspaceConfig {
    pub main1: Option<String>,
    pub main2: Option<String>,
    pub main3: Option<String>,
    pub main4: Option<String>,
}

impl WorkspaceConfig {
    /// The URL for a pane, as text. The control pane never has one.
    pub open spec fn url(self, pane: Pane) -> Option<Seq<char>> {
        match pane {
            Pane::Main1 => text_of(self.main1),
            Pane::Main2 => text_of(self.main2),
            Pane::Main3 => text_of(self.main3),
            Pane::Main4 => text_of(self.main4),
            Pane::Control => None,
        }
    }

    /// The URL for a pane. The control pane never has one.
    pub fn url_of(&self, pane: Pane) -> (url: Option<&String>)
        ensures
            text_of_ref(url) == self.url(pane),
    {
        match pane {
            Pane::Main1 => self.main1.as_ref(),
            Pane::Main2 => self.main2.as_ref(),
            Pane::Main3 => self.main3.as_ref(),
            Pane::Main4 => self.main4.as_ref(),
            Pane::Control => None,
        }
    }
}

impl View for WorkspaceConfig {
    type V = Map<Pane, Seq<char>>;

    open spec fn view(&self) -> Map<Pane, Seq<char>> {
        Map::new(|pane: Pane| self.url(pane) is Some, |pane: Pane| self.url(pane)->0)
    }
}

/// The characters of an optional string.
pub open spec fn text_of(url: Option<String>) -> Option<Seq<char>> {
    match url {
        Some(text) => Some(text@),
        None => None,
    }
}

/// The characters of an optional borrowed string.
pub open spec fn text_of_ref(url: Option<&String>) -> Option<Seq<char>> {
    match url {
        Some(text) => Some(text@),
        None => None,
    }
}

fn url_in(workspace: &serde_json::Value, pane: Pane) -> (url: Option<String>)
    ensures
        text_of(url) == pane_url(json_of(*workspace), pane),
{
    match value_member(workspace, pane.label()) {
        Some(entry) => match value_member(entry, "url") {
            Some(url) => match value_text(url) {
                Some(text) => Some(text.to_owned()),
                None => None,
            },
            None => None,
        },
        None => None,
    }
}

/// Reads from a workspace, as the store holds it, the URL of each quadrant
/// pane. Members of any other name or shape are passed over.
pub fn pane_urls(workspace: &serde_json::Value) -> (config: WorkspaceConfig)
    ensures
        config@ == configured_urls(json_of(*workspace)),
        forall|pane: Pane| pane.is_quadrant() ==> #[trigger] config.url(pane) == pane_url(json_of(*workspace), pane),
{
    let config = WorkspaceConfig {
        main1: url_in(workspace, Pane::Main1),
        main2: url_in(workspace, Pane::Main2),
        main3: url_in(workspace, Pane::Main3),
        main4: url_in(workspace, Pane::Main4),
    };
    assert(config@ =~= configured_urls(json_of(*workspace)));
    config
}

/// The JSON of one pane of a workspace: an object whose only member, `url`,
/// is the text of the URL.
pub open spec fn pane_entry(url: Seq<char>) -> Json {
    Json::Object(no_members().insert("url"@, Json::Text(url)))
}

/// `entries` with the entry of `pane` added, where `urls` names a URL for it.
pub open spec fn with_entry(entries: Map<Seq<char>, Json>, urls: Map<Pane, Seq<char>>, pane: Pane) -> Map<
    Seq<char>,
    Json,
> {
    if urls.contains_key(pane) {
        entries.insert(pane.label_text(), pane_entry(urls[pane]))
    } else {
        entries
    }
}

/// The members of the JSON object that stands for a workspace: one entry for
/// each quadrant pane with a URL, under the pane's label, and nothing else.
pub open spec fn config_entries(urls: Map<Pane, Seq<char>>) -> Map<Seq<char>, Json> {
    with_entry(
        with_entry(with_entry(with_entry(no_members(), urls, Pane::Main1), urls, Pane::Main2), urls, Pane::Main3),
        urls,
        Pane::Main4,
    )
}

fn add_entry(entries: &mut serde_json::Map<String, serde_json::Value>, config: &WorkspaceConfig, pane: Pane)
    ensures
        entries_of(*final(entries)) == with_entry(entries_of(*old(entries)), config@, pane),
{
    if let Some(url) = config.url_of(pane) {
        let mut entry = new_object();
        let _ = object_insert(&mut entry, "url".to_owned(), text_value(url.clone()));
        let _ = object_insert(entries, pane.label().to_owned(), object_value(entry));
    }
}

/// Writes a workspace as the JSON that the store holds for it.
pub fn workspace_value(config: &WorkspaceConfig) -> (value: serde_json::Value)
    ensures
        json_of(value) == Json::Object(config_entries(config@)),
{
    let mut entries = new_object();
    add_entry(&mut entries, config, Pane::Main1);
    add_entry(&mut entries, config, Pane::Main2);
    add_entry(&mut entries, config, Pane::Main3);
    add_entry(&mut entries, config, Pane::Main4);
    object_value(entries)
}

/// The labels of the four quadrant panes are four different texts.
pub proof fn lemma_labels_differ(one: Pane, other: Pane)
    requires
        one.is_quadrant(),
        other.is_quadrant(),
        one != other,
    ensures
        one.label_text() != other.label_text(),
{
    reveal_strlit("main1");
    reveal_strlit("main2");
    reveal_strlit("main3");
    reveal_strlit("main4");
    assert(one.label_text()[4] != other.label_text()[4]);
}

/// A workspace that is written as JSON and read back is the workspace that was
/// written: the same URL for every quadrant pane that had one, and none for
/// the others.
pub proof fn lemma_config_survives_json(urls: Map<Pane, Seq<char>>)
    requires
        !urls.contains_key(Pane::Control),
    ensures
        configured_urls(Json::Object(config_entries(urls))) == urls,
{
    let written = Json::Object(config_entries(urls));
    assert forall|pane: Pane| pane.is_quadrant() implies pane_url(written, pane) == (if urls.contains_key(pane) {
        Some(urls[pane])
    } else {
        None
    }) by {
        lemma_labels_differ_from(pane);
    }
    assert(configured_urls(written) =~= urls);
}

proof fn lemma_labels_differ_from(pane: Pane)
    requires
        pane.is_quadrant(),
    ensures
        forall|other: Pane| other.is_quadrant() && other != pane ==> #[trigger] other.label_text() != pane.label_text(),
{
    assert forall|other: Pane| other.is_quadrant() && other != pane implies #[trigger] other.label_text()
        != pane.label_text() by {
        lemma_labels_differ(other, pane);
    }
}

/// Whether `url::Url::parse` accepts the text as an absolute URL.
pub uninterp spec fn is_absolute_url(text: Seq<char>) -> bool;

/// Calls `url::Url::parse` and says whether it succeeded. The contract only
/// names the answer: it is `is_absolute_url` of the text.
#[verifier::external_body]
pub(crate) fn url_parses(text: &str) -> (accepted: bool)
    ensures
        accepted == is_absolute_url(text@),
{
    url::Url::parse(text).is_ok()
}

/// What reconciliation does about the content of one quadrant pane.
#[derive(Clone, Debug, PartialEq, Eq)]
pub enum Target {
    /// The workspace names no URL: a pane that exists keeps its content, a
    /// new pane shows the blank page.
    Keep,
    /// The workspace names this URL, and it is well formed.
    Open(String),
    /// The workspace names a URL that is not well formed: the navigation is
    /// given up, and a new pane shows the blank page.
    Malformed,
}

/// A [`Target`] with its text as a sequence of characters.
pub enum TargetView {
    Keep,
    Open(Seq<char>),
    Malformed,
}

impl View for Target {
    type V = TargetView;

    open spec fn view(&self) -> TargetView {
        match *self {
            Target::Keep => TargetView::Keep,
            Target::Open(url) => TargetView::Open(url@),
            Target::Malformed => TargetView::Malformed,
        }
    }
}

/// The target for a pane, given the URL that the workspace names for it and
/// whether that URL is well formed.
pub open spec fn target_for(url: Option<Seq<char>>, well_formed: bool) -> TargetView {
    match url {
        None => TargetView::Keep,
        Some(text) => if well_formed {
            TargetView::Open(text)
        } else {
            TargetView::Malformed
        },
    }
}

/// The target for a pane whose URL, if any, is judged by `url::Url::parse`.
pub open spec fn resolved(url: Option<Seq<char>>) -> TargetView {
    target_for(url, url is Some && is_absolute_url(url->0))
}

/// Decides the target for a pane from the URL that the workspace names for it
/// and the verdict on that URL. The verdict is not looked at where there is
/// no URL.
pub fn classify(url: Option<&String>, well_formed: bool) -> (target: Target)
    ensures
        target@ == target_for(text_of_ref(url), well_formed),
{
    match url {
        None => Target::Keep,
        Some(text) => if well_formed {
            Target::Open(text.clone())
        } else {
            Target::Malformed
        },
    }
}

/// Decides the target for a pane, asking the `url` crate about the URL.
pub fn resolve(url: Option<&String>) -> (target: Target)
    ensures
        target@ == resolved(text_of_ref(url)),
{
    match url {
        None => classify(url, false),
        Some(text) => classify(url, url_parses(text.as_str())),
    }
}

/// The targets of the four quadrant panes.
#[derive(Clone, Debug, PartialEq, Eq)]
pub struct PaneTargets {
    pub main1: Target,
    pub main2: Target,
    pub main3: Target,
    pub main4: Target,
}

impl PaneTargets {
    /// The target of a pane. The control pane is never navigated.
    pub open spec fn of(self, pane: Pane) -> TargetView {
        match pane {
            Pane::Main1 => self.main1@,
            Pane::Main2 => self.main2@,
            Pane::Main3 => self.main3@,
            Pane::Main4 => self.main4@,
            Pane::Control => TargetView::Keep,
        }
    }

    pub(crate) fn at(&self, i: usize) -> (target: &Target)
        requires
            i < 4,
        ensures
            target@ == self.of(Pane::at(i as int)),
    {
        if i == 0 {
            &self.main1
        } else if i == 1 {
            &self.main2
        } else if i == 2 {
            &self.main3
        } else {
            &self.main4
        }
    }

    /// The target of a quadrant pane; `None` for the control pane.
    pub fn get(&self, pane: Pane) -> (target: Option<&Target>)
        ensures
            target is Some <==> pane.is_quadrant(),
            target matches Some(found) ==> found@ == self.of(pane),
    {
        match pane {
            Pane::Main1 => Some(&self.main1),
            Pane::Main2 => Some(&self.main2),
            Pane::Main3 => Some(&self.main3),
            Pane::Main4 => Some(&self.main4),
            Pane::Control => None,
        }
    }
}

/// What a workspace switch has to carry from the command to the task that
/// works on the window: the targets of the quadrant panes, and the fullscreen
/// flag as it stood when the command came in.
#[derive(Clone, Debug, PartialEq, Eq)]
pub struct Reconciliation {
    pub targets: PaneTargets,
    pub fullscreen: bool,
}

/// Decides the targets of all four quadrant panes for a workspace.
pub fn resolve_targets(config: &WorkspaceConfig) -> (targets: PaneTargets)
    ensures
        forall|pane: Pane| #[trigger] targets.of(pane) == resolved(config.url(pane)),
{
    PaneTargets {
        main1: resolve(config.url_of(Pane::Main1)),
        main2: resolve(config.url_of(Pane::Main2)),
        main3: resolve(config.url_of(Pane::Main3)),
        main4: resolve(config.url_of(Pane::Main4)),
    }
}

} // verus!
