//! The workspace store: a JSON object that maps each workspace name to the
//! configuration of its panes.
//!
//! The library never touches a file. Each function takes the text of the store
//! as the caller read it, and the ones that change the store return the text
//! to write back.

use crate::json::{
    entries_of, error_text, json_of, new_object, no_members, object_insert, object_remove, parse_document,
    parse_object, parsed_document, parsed_object, pretty_text, print_object, value_clone, value_member, Json,
};
use crate::pane::Pane;
use crate::workspace::{config_entries, workspace_value, WorkspaceConfig};
use vstd::prelude::*;
use vstd::string::*;

verus! {

/// Why a store operation failed.
#[derive(Clone, Debug, PartialEq, Eq)]
pub enum StoreError {
    /// The text of the store could not be read as JSON of the expected shape.
    Parse { detail: String },
    /// The store could not be printed as JSON.
    Serialize { detail: String },
    /// The store holds no workspace of that name.
    WorkspaceNotFound { name: String },
}

impl StoreError {
    /// Whether the store itself is at fault, as opposed to a name that it does
    /// not hold.
    pub open spec fn is_storage_error(self) -> bool {
        self is Parse || self is Serialize
    }

    /// The text of the error message.
    pub open spec fn message_text(self) -> Seq<char> {
        match self {
            StoreError::Parse { detail } => "parse workspaces.json: "@ + detail@,
            StoreError::Serialize { detail } => "serialize workspaces: "@ + detail@,
            StoreError::WorkspaceNotFound { name } => "Workspace '"@ + name@ + "' not found"@,
        }
    }

    /// The error message, for a caller that reports errors as text.
    pub fn message(&self) -> (text: String)
        ensures
            text@ == self.message_text(),
    {
        match self {
            StoreError::Parse { detail } => {
                let mut text = "parse workspaces.json: ".to_owned();
                text.append(detail.as_str());
                text
            },
            StoreError::Serialize { detail } => {
                let mut text = "serialize workspaces: ".to_owned();
                text.append(detail.as_str());
                text
            },
            StoreError::WorkspaceNotFound { name } => {
                let mut text = "Workspace '".to_owned();
                text.append(name.as_str());
                text.append("' not found");
                text
            },
        }
    }
}

/// Looks up one workspace in a parsed store and returns a copy of it. A store
/// that is no JSON object holds no workspace.
pub fn find_workspace(all: &serde_json::Value, layout: &str) -> (found: Result<serde_json::Value, StoreError>)
    ensures
        match json_of(*all).member(layout@) {
            Some(workspace) => found matches Ok(value) && json_of(value) == workspace,
            None => found matches Err(StoreError::WorkspaceNotFound { name }) && name@ == layout@,
        },
{
    match value_member(all, layout) {
        Some(workspace) => Ok(value_clone(workspace)),
        None => Err(StoreError::WorkspaceNotFound { name: layout.to_owned() }),
    }
}

/// Reads one workspace from the text of the store.
///
/// A text that is no JSON gives `Parse`; a store without the name, or a
/// document that is no object, gives `WorkspaceNotFound`.
pub fn read_workspace(store_text: &str, layout: &str) -> (found: Result<serde_json::Value, StoreError>)
    ensures
        match parsed_document(store_text@) {
            None => found matches Err(StoreError::Parse { .. }),
            Some(all) => match all.member(layout@) {
                Some(workspace) => found matches Ok(value) && json_of(value) == workspace,
                None => found matches Err(StoreError::WorkspaceNotFound { name }) && name@ == layout@,
            },
        },
{
    match parse_document(store_text) {
        Ok(all) => find_workspace(&all, layout),
        Err(error) => Err(StoreError::Parse { detail: error_text(&error) }),
    }
}

/// Reads the whole store from its text.
pub fn get_all_workspaces_in_storage(store_text: &str) -> (found: Result<serde_json::Value, StoreError>)
    ensures
        match parsed_document(store_text@) {
            None => found matches Err(StoreError::Parse { .. }),
            Some(all) => found matches Ok(value) && json_of(value) == all,
        },
{
    match parse_document(store_text) {
        Ok(all) => Ok(all),
        Err(error) => Err(StoreError::Parse { detail: error_text(&error) }),
    }
}

/// Prints a store. Whether printing succeeds is for `serde_json` to say.
pub fn print_workspaces(all: &serde_json::Map<String, serde_json::Value>) -> (printed: Result<String, StoreError>)
    ensures
        match pretty_text(entries_of(*all)) {
            Some(text) => printed matches Ok(out) && out@ == text,
            None => printed matches Err(StoreError::Serialize { .. }),
        },
{
    match print_object(all) {
        Ok(text) => Ok(text),
        Err(error) => Err(StoreError::Serialize { detail: error_text(&error) }),
    }
}

/// Puts a workspace into a parsed store, in place of any workspace of the same
/// name, and prints the store.
pub fn store_workspace(
    all: serde_json::Map<String, serde_json::Value>,
    name: String,
    config: serde_json::Value,
) -> (printed: Result<String, StoreError>)
    ensures
        match pretty_text(entries_of(all).insert(name@, json_of(config))) {
            Some(text) => printed matches Ok(out) && out@ == text,
            None => printed matches Err(StoreError::Serialize { .. }),
        },
{
    let mut all = all;
    let _ = object_insert(&mut all, name, config);
    print_workspaces(&all)
}

/// Takes a workspace out of a parsed store and prints the store. A name that
/// the store does not hold is no error: the store is printed as it is.
pub fn discard_workspace(all: serde_json::Map<String, serde_json::Value>, name: &str) -> (printed: Result<
    String,
    StoreError,
>)
    ensures
        match pretty_text(entries_of(all).remove(name@)) {
            Some(text) => printed matches Ok(out) && out@ == text,
            None => printed matches Err(StoreError::Serialize { .. }),
        },
{
    let mut all = all;
    let _ = object_remove(&mut all, name);
    print_workspaces(&all)
}

/// Saves a workspace: reads the store from its text, puts `config` under
/// `name`, and returns the text of the new store.
pub fn save_workspace_in_storage(store_text: &str, name: String, config: serde_json::Value) -> (written: Result<
    String,
    StoreError,
>)
    ensures
        match parsed_object(store_text@) {
            None => written matches Err(StoreError::Parse { .. }),
            Some(entries) => match pretty_text(entries.insert(name@, json_of(config))) {
                Some(text) => written matches Ok(out) && out@ == text,
                None => written matches Err(StoreError::Serialize { .. }),
            },
        },
{
    match parse_object(store_text) {
        Ok(all) => store_workspace(all, name, config),
        Err(error) => Err(StoreError::Parse { detail: error_text(&error) }),
    }
}

/// Deletes a workspace: reads the store from its text, takes `name` out, and
/// returns the text of the new store. Deleting a name that the store does not
/// hold succeeds.
pub fn delete_workspace_in_storage(store_text: &str, name: &str) -> (written: Result<String, StoreError>)
    ensures
        match parsed_object(store_text@) {
            None => written matches Err(StoreError::Parse { .. }),
            Some(entries) => match pretty_text(entries.remove(name@)) {
                Some(text) => written matches Ok(out) && out@ == text,
                None => written matches Err(StoreError::Serialize { .. }),
            },
        },
{
    match parse_object(store_text) {
        Ok(all) => discard_workspace(all, name),
        Err(error) => Err(StoreError::Parse { detail: error_text(&error) }),
    }
}

/// The URLs of a workspace that names one for every quadrant pane.
pub open spec fn four_urls(main1: Seq<char>, main2: Seq<char>, main3: Seq<char>, main4: Seq<char>) -> Map<
    Pane,
    Seq<char>,
> {
    Map::empty().insert(Pane::Main1, main1).insert(Pane::Main2, main2).insert(Pane::Main3, main3).insert(
        Pane::Main4,
        main4,
    )
}

/// The three example workspaces that a new store starts with.
pub open spec fn default_entries() -> Map<Seq<char>, Json> {
    no_members().insert(
        "Math Layout"@,
        Json::Object(
            config_entries(
                four_urls(
                    "https://app.haldor.se/"@,
                    "https://nokportalen.se/"@,
                    "https://www.onenote.com/?public=1&wdorigin=ondcauth2&wdorigin=ondc"@,
                    "https://www.microsoft.com/sv-se/microsoft-teams/log-in?market=se"@,
                ),
            ),
        ),
    ).insert(
        "Programming Layout"@,
        Json::Object(
            config_entries(
                four_urls(
                    "https://app.haldor.se/"@,
                    "https://github.com/"@,
                    "https://chatgpt.com/"@,
                    "https://www.w3schools.com/"@,
                ),
            ),
        ),
    ).insert(
        "Swedish Layout"@,
        Json::Object(
            config_entries(
                four_urls(
                    "https://word.cloud.microsoft/en-us/"@,
                    "https://app.haldor.se/"@,
                    "https://teams.microsoft.com/v2/"@,
                    "https://svenska.se/"@,
                ),
            ),
        ),
    )
}

fn example_workspace(main1: &str, main2: &str, main3: &str, main4: &str) -> (value: serde_json::Value)
    ensures
        json_of(value) == Json::Object(config_entries(four_urls(main1@, main2@, main3@, main4@))),
{
    let config = WorkspaceConfig {
        main1: Some(main1.to_owned()),
        main2: Some(main2.to_owned()),
        main3: Some(main3.to_owned()),
        main4: Some(main4.to_owned()),
    };
    assert(config@ =~= four_urls(main1@, main2@, main3@, main4@));
    workspace_value(&config)
}

/// The store that is written where none exists yet: three example
/// workspaces, each with a URL for every quadrant pane.
pub fn default_workspaces() -> (all: serde_json::Map<String, serde_json::Value>)
    ensures
        entries_of(all) == default_entries(),
{
    let mut all = new_object();
    let _ = object_insert(
        &mut all,
        "Math Layout".to_owned(),
        example_workspace(
            "https://app.haldor.se/",
            "https://nokportalen.se/",
            "https://www.onenote.com/?public=1&wdorigin=ondcauth2&wdorigin=ondc",
            "https://www.microsoft.com/sv-se/microsoft-teams/log-in?market=se",
        ),
    );
    let _ = object_insert(
        &mut all,
        "Programming Layout".to_owned(),
        example_workspace(
            "https://app.haldor.se/",
            "https://github.com/",
            "https://chatgpt.com/",
            "https://www.w3schools.com/",
        ),
    );
    let _ = object_insert(
        &mut all,
        "Swedish Layout".to_owned(),
        example_workspace(
            "https://word.cloud.microsoft/en-us/",
            "https://app.haldor.se/",
            "https://teams.microsoft.com/v2/",
            "https://svenska.se/",
        ),
    );
    all
}

/// The text of the store that is written where none exists yet.
pub fn default_store_text() -> (printed: Result<String, StoreError>)
    ensures
        match pretty_text(default_entries()) {
            Some(text) => printed matches Ok(out) && out@ == text,
            None => printed matches Err(StoreError::Serialize { .. }),
        },
{
    print_workspaces(&default_workspaces())
}

/// In a store to which a workspace was saved, that workspace is found under
/// its name exactly as it was saved, and every other name leads to what it
/// led to before.
pub proof fn lemma_saved_workspace_is_found(
    entries: Map<Seq<char>, Json>,
    name: Seq<char>,
    config: Json,
    other: Seq<char>,
)
    ensures
        Json::Object(entries.insert(name, config)).member(name) == Some(config),
        other != name ==> Json::Object(entries.insert(name, config)).member(other) == Json::Object(entries).member(
            other,
        ),
{
}

/// In a store from which a workspace was deleted, nothing is found under its
/// name, and every other name leads to what it led to before. Deleting a name
/// that the store does not hold leaves the store as it is.
pub proof fn lemma_deleted_workspace_is_gone(entries: Map<Seq<char>, Json>, name: Seq<char>, other: Seq<char>)
    ensures
        Json::Object(entries.remove(name)).member(name) is None,
        other != name ==> Json::Object(entries.remove(name)).member(other) == Json::Object(entries).member(other),
        !entries.contains_key(name) ==> entries.remove(name) == entries,
{
    if !entries.contains_key(name) {
        assert(entries.remove(name) =~= entries);
    }
}

} // verus!
