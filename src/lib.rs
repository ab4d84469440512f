//! Turns the pages of a Notion database into calendar events.
//!
//! The library holds the record model (`notion`), the date model and its
//! normaliser (`date`), the per-record transformation (`pipeline`) and the
//! event and calendar construction (`event`).

mod date;
mod event;
mod notion;
mod pipeline;

pub use date::{CalDate, Date, DateParseError, DatePoint, TimeOfDay};
pub use event::{create_calendar, render_calendar, Bound, DateEntry, EventParts};
pub use notion::{
    NotionDatabaseResponse, NotionDate, NotionIcon, NotionPage, NotionPerson, NotionProperty,
    NotionPropertyValue, NotionRelation, NotionSelect, NotionSelectType, NotionText,
    NotionTextType,
};
pub use pipeline::{
    format_property, lemma_entries_deterministic, process_page, process_pages, relation_ids,
};
