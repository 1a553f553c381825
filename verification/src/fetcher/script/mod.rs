//! Running a script and reading its result.

use vstd::prelude::*;
use vstd::string::StringExecFns;

use crate::data::sources::{SourceMetaItem, SourceMetaItemView};
use crate::text::opt_text;

pub mod supervisor;

pub use supervisor::{FetchMsg, FetchMsgView, FetchTime};

verus! {

/// Source item data output from a script.
#[derive(Debug, Clone)]
pub struct SourceItemFetchData {
    pub last_updated: Option<String>,
    /// The map of tags, encoded.
    pub tags: Vec<u8>,
}

/// What a `SourceItemFetchData` holds.
pub struct SourceItemFetchDataView {
    pub last_updated: Option<Seq<char>>,
    pub tags: Seq<u8>,
}

impl View for SourceItemFetchData {
    type V = SourceItemFetchDataView;

    open spec fn view(&self) -> SourceItemFetchDataView {
        SourceItemFetchDataView { last_updated: opt_text(self.last_updated), tags: self.tags@ }
    }
}

/// Inline data of one item of a source, under the item's path.
#[derive(Debug, Clone)]
pub struct InlineItemData {
    pub path: String,
    pub data: SourceItemFetchData,
}

/// What an `InlineItemData` holds.
pub struct InlineItemDataView {
    pub path: Seq<char>,
    pub data: SourceItemFetchDataView,
}

impl View for InlineItemData {
    type V = InlineItemDataView;

    open spec fn view(&self) -> InlineItemDataView {
        InlineItemDataView { path: self.path@, data: self.data@ }
    }
}

/// Source data output from a script.
#[derive(Debug, Clone)]
pub struct SourceFetchData {
    pub last_updated: Option<String>,
    /// The map of tags, encoded.
    pub tags: Vec<u8>,
    pub items: Vec<SourceMetaItem>,
    /// The data that the script returned along with the source for some of
    /// its items.
    pub item_data: Vec<InlineItemData>,
}

/// What a `SourceFetchData` holds.
pub struct SourceFetchDataView {
    pub last_updated: Option<Seq<char>>,
    pub tags: Seq<u8>,
    pub items: Seq<SourceMetaItemView>,
    pub item_data: Seq<InlineItemDataView>,
}

impl View for SourceFetchData {
    type V = SourceFetchDataView;

    open spec fn view(&self) -> SourceFetchDataView {
        SourceFetchDataView {
            last_updated: opt_text(self.last_updated),
            tags: self.tags@,
            items: crate::data::models::views(self.items@),
            item_data: crate::data::models::views(self.item_data@),
        }
    }
}

/// Errors that may occur when running a script.
#[derive(Debug)]
pub enum ScriptError {
    /// The result of the script has not the expected shape; the text tells
    /// what is wrong with it.
    Parse(String),
    Timeout,
    Script(String),
}

/// What a `ScriptError` holds.
pub enum ScriptErrorView {
    Parse(Seq<char>),
    Timeout,
    Script(Seq<char>),
}

impl View for ScriptError {
    type V = ScriptErrorView;

    open spec fn view(&self) -> ScriptErrorView {
        match self {
            ScriptError::Parse(s) => ScriptErrorView::Parse(s@),
            ScriptError::Timeout => ScriptErrorView::Timeout,
            ScriptError::Script(s) => ScriptErrorView::Script(s@),
        }
    }
}

/// The text of an error of running a script.
pub open spec fn script_error_text(e: ScriptErrorView) -> Seq<char> {
    match e {
        ScriptErrorView::Parse(s) => "failed to parse data: "@ + s,
        ScriptErrorView::Timeout => "script timed out (infinite loop?)"@,
        ScriptErrorView::Script(s) => "failed to run script: "@ + s,
    }
}

impl ScriptError {
    /// The text of this error.
    pub fn message(&self) -> (text: String)
        ensures
            text@ == script_error_text(self@),
    {
        match self {
            ScriptError::Parse(s) => {
                let mut text = String::from_str("failed to parse data: ");
                text.append(s.as_str());
                text
            },
            ScriptError::Timeout => String::from_str("script timed out (infinite loop?)"),
            ScriptError::Script(s) => {
                let mut text = String::from_str("failed to run script: ");
                text.append(s.as_str());
                text
            },
        }
    }
}

/// The error of running a script for an error of the run: a run without a
/// result failed with the text `no_result`; a failed or broken run failed
/// with its own text.
pub open spec fn run_error(e: supervisor::ScriptErrorView, no_result: Seq<char>) -> ScriptErrorView {
    match e {
        supervisor::ScriptErrorView::Timeout => ScriptErrorView::Timeout,
        supervisor::ScriptErrorView::NoResult => ScriptErrorView::Script(no_result),
        supervisor::ScriptErrorView::Exec(s) => ScriptErrorView::Script(s),
        supervisor::ScriptErrorView::Fatal(s) => ScriptErrorView::Script(s),
    }
}

/// Maps an error of a run.
fn map_run_error(e: supervisor::ScriptError, no_result: &str) -> (err: ScriptError)
    ensures
        err@ == run_error(e@, no_result@),
{
    match e {
        supervisor::ScriptError::Timeout => ScriptError::Timeout,
        supervisor::ScriptError::NoResult => ScriptError::Script(String::from_str(no_result)),
        supervisor::ScriptError::Exec(err) => ScriptError::Script(err),
        supervisor::ScriptError::Fatal(err) => ScriptError::Script(err),
    }
}

/// The request to run the script of a domain for the source at `path`.
pub fn source_request(domain: &str, script: &str, path: &str) -> (request: supervisor::Fetch)
    ensures
        request matches supervisor::Fetch::Source { domain: d, script: s, path: p } && d@
            == domain@ && s@ == script@ && p@ == path@,
{
    supervisor::Fetch::Source {
        domain: String::from_str(domain),
        script: String::from_str(script),
        path: String::from_str(path),
    }
}

/// The request to run the script of a domain for the item at `path`.
pub fn source_item_request(domain: &str, script: &str, path: &str) -> (request: supervisor::Fetch)
    ensures
        request matches supervisor::Fetch::SourceItem { domain: d, script: s, path: p } && d@
            == domain@ && s@ == script@ && p@ == path@,
{
    supervisor::Fetch::SourceItem {
        domain: String::from_str(domain),
        script: String::from_str(script),
        path: String::from_str(path),
    }
}

/// Fetches a source: what the run of a script for a source comes to. `run`
/// is the outcome of the run, with the result of the script read as the data
/// of a source, or the text that tells why it cannot be read so.
pub fn fetch_source(run: Result<Result<SourceFetchData, String>, supervisor::ScriptError>) -> (res:
    Result<SourceFetchData, ScriptError>)
    ensures
        match run {
            Ok(Ok(data)) => res == Ok::<SourceFetchData, ScriptError>(data),
            Ok(Err(text)) => res matches Err(e) && e@ == ScriptErrorView::Parse(text@),
            Err(err) => res matches Err(e) && e@ == run_error(
                err@,
                "script execution ended with no result"@,
            ),
        },
{
    match run {
        Ok(Ok(data)) => Ok(data),
        Ok(Err(text)) => Err(ScriptError::Parse(text)),
        Err(err) => Err(map_run_error(err, "script execution ended with no result")),
    }
}

/// Fetches a source item: what the run of a script for an item comes to.
pub fn fetch_source_item(
    run: Result<Result<SourceItemFetchData, String>, supervisor::ScriptError>,
) -> (res: Result<SourceItemFetchData, ScriptError>)
    ensures
        match run {
            Ok(Ok(data)) => res == Ok::<SourceItemFetchData, ScriptError>(data),
            Ok(Err(text)) => res matches Err(e) && e@ == ScriptErrorView::Parse(text@),
            Err(err) => res matches Err(e) && e@ == run_error(
                err@,
                "script completed with no result"@,
            ),
        },
{
    match run {
        Ok(Ok(data)) => Ok(data),
        Ok(Err(text)) => Err(ScriptError::Parse(text)),
        Err(err) => Err(map_run_error(err, "script completed with no result")),
    }
}

} // verus!
