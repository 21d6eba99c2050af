//! The persisted settings document and the field operations on it.
//!
//! Every operation of the player works on a whole document: the caller loads
//! it, applies one of the operations below, and saves the result.
use vstd::prelude::*;

verus! {

/// serde_json's dynamic JSON value, carried through unread: playlist entries
/// and their metadata have whatever shape the front end gives them.
#[verifier::external_type_specification]
#[verifier::external_body]
pub struct ExJsonValue(serde_json::Value);

/// Shape the front end gives a playlist entry; the store does not inspect it.
#[derive(Debug)]
pub struct PlaylistItem {
    pub path: String,
    pub name: String,
    pub metadata: Option<serde_json::Value>,
}

/// The settings document. A field that was never set is absent.
pub struct AppConfig {
    pub api_key: Option<String>,
    pub playlist: Option<Vec<serde_json::Value>>,
    pub current_song_index: Option<i32>,
}

/// Abstract content of a settings document.
pub struct ConfigView {
    pub api_key: Option<Seq<char>>,
    pub playlist: Option<Seq<serde_json::Value>>,
    pub current_song_index: Option<i32>,
}

impl ConfigView {
    /// The document with no field set.
    pub open spec fn empty() -> ConfigView {
        ConfigView { api_key: None, playlist: None, current_song_index: None }
    }

    /// The API key, or the empty text when none is stored.
    pub open spec fn key_text(self) -> Seq<char> {
        match self.api_key {
            Some(k) => k,
            None => Seq::empty(),
        }
    }

    /// The playlist, or no entries when none is stored.
    pub open spec fn items(self) -> Seq<serde_json::Value> {
        match self.playlist {
            Some(p) => p,
            None => Seq::empty(),
        }
    }

    /// The current index, or -1 (no selection) when none is stored.
    pub open spec fn index(self) -> int {
        match self.current_song_index {
            Some(i) => i as int,
            None => -1,
        }
    }

    pub open spec fn with_api_key(self, key: Seq<char>) -> ConfigView {
        ConfigView { api_key: Some(key), ..self }
    }

    pub open spec fn with_playlist(self, items: Seq<serde_json::Value>) -> ConfigView {
        ConfigView { playlist: Some(items), ..self }
    }

    pub open spec fn with_index(self, index: i32) -> ConfigView {
        ConfigView { current_song_index: Some(index), ..self }
    }
}

impl View for AppConfig {
    type V = ConfigView;

    open spec fn view(&self) -> ConfigView {
        ConfigView {
            api_key: match self.api_key {
                Some(k) => Some(k@),
                None => None,
            },
            playlist: match self.playlist {
                Some(p) => Some(p@),
                None => None,
            },
            current_song_index: self.current_song_index,
        }
    }
}

impl Default for AppConfig {
    /// The document of a fresh installation: no field set.
    fn default() -> (r: AppConfig)
        ensures
            r@ == ConfigView::empty(),
    {
        AppConfig { api_key: None, playlist: None, current_song_index: None }
    }
}

impl AppConfig {
    /// The document that loading yields: the one read, or the empty document
    /// when none could be read or parsed.
    pub fn loaded_or_default(parsed: Option<AppConfig>) -> (r: AppConfig)
        ensures
            r@ == match parsed {
                Some(c) => c@,
                None => ConfigView::empty(),
            },
    {
        match parsed {
            Some(c) => c,
            None => AppConfig::default(),
        }
    }

    /// The stored API key, empty when none is stored.
    pub fn get_api_key(&self) -> (r: String)
        ensures
            r@ == self@.key_text(),
    {
        match &self.api_key {
            Some(k) => k.clone(),
            None => String::new(),
        }
    }

    /// Whether an API key is stored (an empty one counts).
    pub fn has_api_key(&self) -> (r: bool)
        ensures
            r == self@.api_key is Some,
    {
        self.api_key.is_some()
    }

    /// Stores `api_key`, leaving the other fields as they were.
    pub fn set_api_key(&mut self, api_key: String)
        ensures
            final(self)@ == old(self)@.with_api_key(api_key@),
    {
        self.api_key = Some(api_key);
    }

    /// The stored playlist, in order; no entries when none is stored.
    pub fn get_playlist(self) -> (r: Vec<serde_json::Value>)
        ensures
            r@ == self@.items(),
    {
        match self.playlist {
            Some(p) => p,
            None => Vec::new(),
        }
    }

    /// Replaces the whole playlist by `items`, leaving the other fields as they were.
    pub fn save_playlist(&mut self, items: Vec<serde_json::Value>)
        ensures
            final(self)@ == old(self)@.with_playlist(items@),
    {
        self.playlist = Some(items);
    }

    /// The stored current index, -1 when none is stored.
    pub fn get_current_index(&self) -> (r: i32)
        ensures
            r as int == self@.index(),
    {
        match self.current_song_index {
            Some(i) => i,
            None => -1,
        }
    }

    /// Stores `index`, leaving the other fields as they were.
    pub fn save_current_index(&mut self, index: i32)
        ensures
            final(self)@ == old(self)@.with_index(index),
    {
        self.current_song_index = Some(index);
    }
}

/// Reading the playlist back after replacing it gives exactly the entries
/// stored, in their order.
pub proof fn lemma_playlist_round_trip(c: ConfigView, items: Seq<serde_json::Value>)
    ensures
        c.with_playlist(items).items() == items,
{
}

/// A document with nothing stored reads as an empty key, no key, an empty
/// playlist and index -1.
pub proof fn lemma_empty_document_defaults()
    ensures
        ConfigView::empty().key_text() == Seq::<char>::empty(),
        !(ConfigView::empty().api_key is Some),
        ConfigView::empty().items() == Seq::<serde_json::Value>::empty(),
        ConfigView::empty().index() == -1,
{
}

/// Each field survives updates of the other fields: a key set before the
/// playlist or the index is replaced reads back unchanged, and so on.
pub proof fn lemma_fields_independent(
    c: ConfigView,
    key: Seq<char>,
    items: Seq<serde_json::Value>,
    index: i32,
)
    ensures
        c.with_api_key(key).with_playlist(items).key_text() == key,
        c.with_api_key(key).with_index(index).key_text() == key,
        c.with_playlist(items).with_api_key(key).items() == items,
        c.with_playlist(items).with_index(index).items() == items,
        c.with_index(index).with_api_key(key).index() == index as int,
        c.with_index(index).with_playlist(items).index() == index as int,
{
}

} // verus!
