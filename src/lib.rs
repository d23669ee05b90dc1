pub mod app;
pub mod event;
pub mod fields;
pub mod keys;
pub mod parsed_fields;
pub mod pattern;
pub mod replace;
pub mod text;
pub mod ui;
pub mod utils;

pub use app::{
    App, Effect, FieldName, PerformingReplacementState, ReplaceState, Screen,
    SearchFields, SearchInProgressState, SearchState, NUM_SEARCH_FIELDS,
};
pub use event::{
    AppEvent, BackgroundProcessingEvent, EventHandlingResult, ReplaceResult, SearchResult,
};
pub use fields::{CheckboxField, Field, FieldError, TextField};
pub use keys::{KeyCode, KeyEvent, KeyEventKind, KeyModifiers};
