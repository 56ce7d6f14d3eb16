//! The shape of a page configuration, member by member.
use vstd::prelude::*;
use std::collections::HashMap;
use crate::json::Json;

verus! {

/// A page configuration.
#[derive(Debug)]
pub struct PageConfig {
    pub page_name: PageName,
    pub list_api: String,
    pub create_api: Option<String>,
    pub get_api: Option<String>,
    pub update_api: Option<String>,
    pub delete_api: Option<String>,
    pub columns: Option<i32>,
    /// The page's kind.
    pub page_type: Option<String>,
    pub create_fields: Option<Vec<FieldConfig>>,
    pub update_fields: Option<Vec<FieldConfig>>,
    pub search_fields: Option<Vec<FieldConfig>>,
    pub table_fields: Option<Vec<FieldConfig>>,
    pub form_fields: Option<Vec<FieldConfig>>,
    pub table_actions: Option<Vec<ActionConfig>>,
    pub table_operation: Option<Vec<ActionConfig>>,
    /// An object or an array.
    pub view_config: Option<Json>,
    pub map: Option<HashMap<String, MapConfig>>,
    pub layout: Option<Json>,
    pub search_type: Option<String>,
    pub search_button_type: Option<String>,
}

/// The titles of a page's views.
#[derive(Debug)]
pub struct PageName {
    pub table: Option<String>,
    pub new: Option<String>,
    pub edit: Option<String>,
    pub view: Option<String>,
    pub name: Option<String>,
}

/// A field of a page.
#[derive(Debug)]
pub struct FieldConfig {
    pub label: String,
    pub field: String,
    /// The field's kind (the member `type`).
    pub field_type: String,
    pub props: Option<Json>,
    pub rules: Option<Vec<Json>>,
    pub options: Option<Json>,
    pub span: Option<i32>,
    pub width: Option<String>,
    pub toptips: Option<String>,
    pub default_value: Option<Json>,
    pub expect: Option<Json>,
    pub value_type: Option<String>,
    pub align: Option<String>,
    pub theme: Option<String>,
}

/// An action of a page's table.
#[derive(Debug)]
pub struct ActionConfig {
    pub title: String,
    /// The action's kind (the member `type`).
    pub action_type: String,
    pub options: Option<Json>,
    pub expect: Option<Json>,
    pub other_props: Option<Json>,
}

/// How the values of a column are shown.
#[derive(Debug)]
pub struct MapConfig {
    pub map: Option<HashMap<String, String>>,
    pub options: Option<Vec<Json>>,
    pub color: Option<Json>,
}

} // verus!
