//! The ways a configuration request can fail, and the messages they carry.
use vstd::prelude::*;
use vstd::string::*;
use crate::json::{Json, JsonValue};

verus! {

/// A failed configuration request.
pub enum ConfigError {
    /// Neither the cache nor the store holds the page.
    NotFound { page_id: String },
    /// The cache does not hold the page.
    NotCached { page_id: String },
    /// The range code names none of the field ranges.
    InvalidRangeCode { range_code: String },
    /// The member that the range code names holds something other than a
    /// list of fields.
    RangeNotList { range_code: String },
    /// The field to edit carries no name.
    MissingFieldName,
    /// No field of the range carries the name.
    FieldNotFound { field_name: String, range_code: String },
    /// The cache or the store reported a failure.
    Storage { message: String },
}

/// The mathematical value of a [`ConfigError`].
pub enum ConfigErrorView {
    NotFound(Seq<char>),
    NotCached(Seq<char>),
    InvalidRangeCode(Seq<char>),
    RangeNotList(Seq<char>),
    MissingFieldName,
    FieldNotFound(Seq<char>, Seq<char>),
    Storage(Seq<char>),
}

impl View for ConfigError {
    type V = ConfigErrorView;

    open spec fn view(&self) -> ConfigErrorView {
        match self {
            ConfigError::NotFound { page_id } => ConfigErrorView::NotFound(page_id@),
            ConfigError::NotCached { page_id } => ConfigErrorView::NotCached(page_id@),
            ConfigError::InvalidRangeCode { range_code } => ConfigErrorView::InvalidRangeCode(
                range_code@,
            ),
            ConfigError::RangeNotList { range_code } => ConfigErrorView::RangeNotList(range_code@),
            ConfigError::MissingFieldName => ConfigErrorView::MissingFieldName,
            ConfigError::FieldNotFound { field_name, range_code } => ConfigErrorView::FieldNotFound(
                field_name@,
                range_code@,
            ),
            ConfigError::Storage { message } => ConfigErrorView::Storage(message@),
        }
    }
}

impl ConfigErrorView {
    /// The text that describes the failure.
    pub open spec fn message(self) -> Seq<char> {
        match self {
            ConfigErrorView::NotFound(p) => "Configuration for "@ + p + " not found"@,
            ConfigErrorView::NotCached(p) => "No configuration in cache for "@ + p,
            ConfigErrorView::InvalidRangeCode(c) => "Invalid range code: "@ + c,
            ConfigErrorView::RangeNotList(c) => "Range "@ + c + " does not hold a list of fields"@,
            ConfigErrorView::MissingFieldName => "Missing field name"@,
            ConfigErrorView::FieldNotFound(f, c) => "Field "@ + f + " not found in "@ + c,
            ConfigErrorView::Storage(m) => m,
        }
    }
}

impl ConfigError {
    /// The text that describes the failure.
    pub fn message(&self) -> (m: String)
        ensures
            m@ == self@.message(),
    {
        match self {
            ConfigError::NotFound { page_id } => {
                let m = String::from_str("Configuration for ").concat(page_id.as_str());
                m.concat(" not found")
            },
            ConfigError::NotCached { page_id } => {
                String::from_str("No configuration in cache for ").concat(page_id.as_str())
            },
            ConfigError::InvalidRangeCode { range_code } => {
                String::from_str("Invalid range code: ").concat(range_code.as_str())
            },
            ConfigError::RangeNotList { range_code } => {
                let m = String::from_str("Range ").concat(range_code.as_str());
                m.concat(" does not hold a list of fields")
            },
            ConfigError::MissingFieldName => String::from_str("Missing field name"),
            ConfigError::FieldNotFound { field_name, range_code } => {
                let m = String::from_str("Field ").concat(field_name.as_str());
                let m = m.concat(" not found in ");
                m.concat(range_code.as_str())
            },
            ConfigError::Storage { message } => message.clone(),
        }
    }
}

/// The value of the outcome of a change to a document.
pub open spec fn outcome_view(r: Result<Json, ConfigError>) -> Result<JsonValue, ConfigErrorView> {
    match r {
        Ok(j) => Ok(j@),
        Err(e) => Err(e@),
    }
}

} // verus!
