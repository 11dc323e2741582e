//! The config-sync daemon's decisions: extracting the policy document from
//! the watched configuration object, deciding whether the persisted file
//! must be rewritten, and driving the write-then-reload step.
//!
//! The daemon is the sole writer of the mounted file. Reading the object,
//! writing the file and delivering the reload signal are I/O and happen
//! outside the library; every decision between them is verified here.

use vstd::prelude::*;

verus! {

use crate::Error;
use crate::ErrorView;
use crate::json::Jv;
use crate::json::json_model;
use crate::json::json_parse;
use crate::json::parse_json;
use crate::json::value_eq;
use crate::json::value_to_string;

/// The policy document extracted from the watched configuration object.
pub struct Config {
    pub acls: serde_json::Value,
}

impl View for Config {
    type V = Jv;

    open spec fn view(&self) -> Jv {
        json_model(self.acls)
    }
}

/// The effective text of the policy field: the field itself when present,
/// the empty document otherwise.
pub open spec fn effective_field(field: Option<Seq<char>>) -> Seq<char> {
    match field {
        Some(s) => s,
        None => "{}"@,
    }
}

impl Config {
    /// Extracts the policy document from the configuration object's field.
    /// An absent field defaults to the empty document; a field that does not
    /// parse is a malformed-content error, which callers log and skip.
    pub fn from_field(field: Option<&str>) -> (r: Result<Config, Error>)
        ensures
            r matches Ok(c) ==> json_parse(effective_field(field.deep_view())) == Some(c@),
            r is Err <==> json_parse(effective_field(field.deep_view())) is None,
            r matches Err(e) ==> e@ == ErrorView::MalformedJson,
    {
        let text = match field {
            Some(s) => s,
            None => "{}",
        };
        match parse_json(text) {
            Some(v) => Ok(Config { acls: v }),
            None => Err(Error::MalformedJson),
        }
    }

    /// Extracts the policy document for the one-shot startup sync, where
    /// malformed content is logged but must not abort: it falls back to the
    /// empty document, like an absent field.
    pub fn from_field_or_default(field: Option<&str>) -> (r: Result<Config, Error>)
        ensures
            json_parse(effective_field(field.deep_view())) matches Some(doc) ==> (
            r matches Ok(c) && c@ == doc),
            json_parse(effective_field(field.deep_view())) is None ==> match json_parse("{}"@) {
                Some(empty) => r matches Ok(c) && c@ == empty,
                None => r is Err,
            },
    {
        match Config::from_field(field) {
            Ok(c) => Ok(c),
            Err(_) => Config::from_field(None),
        }
    }
}

/// The document the persisted file currently holds: none when the file does
/// not exist or its content does not parse.
pub open spec fn disk_doc(existing: Option<Seq<char>>) -> Option<Jv> {
    match existing {
        None => None,
        Some(s) => json_parse(s),
    }
}

/// Whether the persisted state differs from the incoming document: a missing
/// or unreadable file always counts as changed, a parsed one exactly when it
/// is structurally different.
pub open spec fn sync_changed(disk: Option<Jv>, incoming: Jv) -> bool {
    disk != Some(incoming)
}

/// One sync step over the persisted document: the new persisted document and
/// whether a write (followed by one reload signal) happens.
pub open spec fn sync_step(disk: Option<Jv>, incoming: Jv) -> (Option<Jv>, bool) {
    if sync_changed(disk, incoming) {
        (Some(incoming), true)
    } else {
        (disk, false)
    }
}

/// What one delivered document makes the daemon do: skip, or write this
/// content to the mounted file and then signal a reload.
pub enum SyncDecision {
    Skip,
    Write(String),
}

/// Keeps the mounted policy file in sync with the watched document.
pub struct ConfigManager {
    mount_path: String,
}

impl ConfigManager {
    /// The directory the policy file lives in.
    pub closed spec fn mount_path_spec(&self) -> Seq<char> {
        self.mount_path@
    }

    /// A manager writing under the given mount path.
    pub fn new(mount_path: String) -> (r: Self)
        ensures
            r.mount_path_spec() == mount_path@,
    {
        ConfigManager { mount_path }
    }

    /// The full path of the persisted policy file.
    pub fn acl_file_path(&self) -> (r: String)
        ensures
            r@ == self.mount_path_spec() + "/acl.json"@,
    {
        let mut p = self.mount_path.clone();
        p.append("/acl.json");
        p
    }

    /// Whether the persisted file must be rewritten for an incoming
    /// document. A missing file always counts as changed, whatever the
    /// document; so does one whose content does not parse.
    pub fn changed(&self, existing: Option<&str>, value: &serde_json::Value) -> (r: bool)
        ensures
            r == sync_changed(disk_doc(existing.deep_view()), json_model(*value)),
            existing is None ==> r,
    {
        match existing {
            None => true,
            Some(s) => match parse_json(s) {
                None => true,
                Some(current) => !value_eq(value, &current),
            },
        }
    }

    /// Decides one sync step: the serialized content to write when the
    /// persisted file differs from the incoming document, or the decision to
    /// skip. A write is always followed by one reload signal.
    pub fn sync(&self, existing: Option<&str>, value: &serde_json::Value) -> (r: SyncDecision)
        ensures
            (r is Write) == sync_step(disk_doc(existing.deep_view()), json_model(*value)).1,
            r matches SyncDecision::Write(content) ==> json_parse(content@) == sync_step(
                disk_doc(existing.deep_view()),
                json_model(*value),
            ).0,
            r is Skip ==> disk_doc(existing.deep_view()) == Some(json_model(*value)),
    {
        if self.changed(existing, value) {
            SyncDecision::Write(value_to_string(value))
        } else {
            SyncDecision::Skip
        }
    }
}

/// One observation of the watch: a delivered object carrying its policy
/// field, an idle interval, or a failed read.
pub enum WatchEvent {
    Delivered(Option<String>),
    Idle,
    ReadFailed,
}

/// What the daemon's loop does with one observation.
pub enum TickAction {
    /// Log and continue: a failed read, or malformed content.
    Continue,
    /// Sleep briefly and re-poll: the watch yielded nothing.
    Sleep,
    /// Apply the sync decision: write-and-signal, or skip.
    Apply(SyncDecision),
}

impl ConfigManager {
    /// Drives one turn of the daemon's steady-state loop: a failed read is
    /// logged and tolerated, an idle interval leads to a brief sleep, and a
    /// delivered object has its policy document extracted and synced;
    /// malformed content is logged and skipped without a write.
    pub fn run_tick(&self, existing: Option<&str>, event: WatchEvent) -> (r: TickAction)
        ensures
            event is ReadFailed ==> r is Continue,
            event is Idle ==> r is Sleep,
            event matches WatchEvent::Delivered(field) ==> match json_parse(
                effective_field(field.deep_view()),
            ) {
                None => r is Continue,
                Some(doc) => {
                    &&& r matches TickAction::Apply(d)
                    &&& ((d is Write) == sync_step(disk_doc(existing.deep_view()), doc).1)
                    &&& (d matches SyncDecision::Write(content) ==> json_parse(content@) == Some(
                        doc,
                    ))
                },
            },
    {
        match event {
            WatchEvent::ReadFailed => TickAction::Continue,
            WatchEvent::Idle => TickAction::Sleep,
            WatchEvent::Delivered(field) => {
                let field_ref = match &field {
                    Some(s) => Some(s.as_str()),
                    None => None,
                };
                match Config::from_field(field_ref) {
                    Err(_) => TickAction::Continue,
                    Ok(config) => TickAction::Apply(self.sync(existing, &config.acls)),
                }
            },
        }
    }
}

/// With no existing file every incoming document counts as changed, the
/// empty one included.
pub proof fn lemma_changed_without_file(incoming: Jv)
    ensures
        sync_changed(disk_doc(None), incoming),
{
}

/// A watch delivering one document twice and then a structurally different
/// one writes, and so signals a reload, exactly on the first and the third
/// delivery, in that order, and the persisted file finally holds the last
/// document.
pub proof fn lemma_sync_three_deliveries(d1: Jv, d2: Jv)
    requires
        d1 != d2,
    ensures
        ({
            let (f1, w1) = sync_step(None, d1);
            let (f2, w2) = sync_step(f1, d1);
            let (f3, w3) = sync_step(f2, d2);
            &&& w1
            &&& !w2
            &&& w3
            &&& f1 == Some(d1)
            &&& f2 == Some(d1)
            &&& f3 == Some(d2)
        }),
{
}

} // verus!
