use vstd::prelude::*;

use crate::app::ReplaceState;

verus! {

/// What happened to one match when its file was rewritten.
#[derive(Debug, PartialEq, Eq)]
pub enum ReplaceResult {
    Success,
    Error(String),
}

impl Clone for ReplaceResult {
    fn clone(&self) -> (r: ReplaceResult)
        ensures
            r == *self,
    {
        match self {
            ReplaceResult::Success => ReplaceResult::Success,
            ReplaceResult::Error(e) => ReplaceResult::Error(e.clone()),
        }
    }
}

/// One line of one file that matched the search, with the line it would
/// become.
#[derive(Debug, PartialEq, Eq)]
pub struct SearchResult {
    pub path: String,
    pub line_number: usize,
    pub line: String,
    pub replacement: String,
    pub included: bool,
    pub replace_result: Option<ReplaceResult>,
}

impl Clone for SearchResult {
    fn clone(&self) -> (r: SearchResult)
        ensures
            r == *self,
    {
        SearchResult {
            path: self.path.clone(),
            line_number: self.line_number,
            line: self.line.clone(),
            replacement: self.replacement.clone(),
            included: self.included,
            replace_result: match &self.replace_result {
                None => None,
                Some(r) => Some(r.clone()),
            },
        }
    }
}

/// Events that the application sends itself.
#[derive(Debug, Clone, Copy, PartialEq, Eq, Structural)]
pub enum AppEvent {
    Rerender,
    PerformSearch,
}

/// Events that the background search and replacement send to the
/// application.
#[derive(Debug)]
pub enum BackgroundProcessingEvent {
    AddSearchResult(SearchResult),
    SearchCompleted,
    ReplacementCompleted(ReplaceState),
}

/// What the caller should do after an event was handled.
#[derive(Debug, Clone, Copy, PartialEq, Eq, Structural)]
pub struct EventHandlingResult {
    pub exit: bool,
    pub rerender: bool,
}

} // verus!
