//! Declarative settings attached to handlers and fields: export columns,
//! data scope aliases, resubmission guards, audit logging, validation groups
//! and permission checks.
use vstd::prelude::*;

verus! {

/// How a field is exported to a spreadsheet column.
pub struct Excel {
    pub name: Option<String>,
    pub date_format: Option<String>,
    pub dict_type: Option<String>,
    pub read_converter_exp: Option<String>,
    pub separator: Option<String>,
    pub cell_type: Option<i32>,
    pub height: Option<i32>,
    pub width: Option<i32>,
    pub suffix: Option<String>,
    pub default_value: Option<String>,
    pub prompt: Option<String>,
    pub combo: Option<Vec<String>>,
    pub is_export: Option<bool>,
    pub target_attr: Option<String>,
    pub is_statistics: Option<bool>,
}

impl Default for Excel {
    /// Nothing set but that the field is exported.
    fn default() -> (r: Excel)
        ensures
            r.name is None && r.date_format is None && r.dict_type is None,
            r.read_converter_exp is None && r.separator is None,
            r.cell_type is None && r.height is None && r.width is None,
            r.suffix is None && r.default_value is None && r.prompt is None && r.combo is None,
            r.is_export == Some(true),
            r.target_attr is None && r.is_statistics is None,
    {
        Excel {
            name: None,
            date_format: None,
            dict_type: None,
            read_converter_exp: None,
            separator: None,
            cell_type: None,
            height: None,
            width: None,
            suffix: None,
            default_value: None,
            prompt: None,
            combo: None,
            is_export: Some(true),
            target_attr: None,
            is_statistics: None,
        }
    }
}

/// The table aliases that a data scope condition is written against.
pub struct DataScope {
    pub user_alias: Option<String>,
    pub dept_alias: Option<String>,
}

impl Default for DataScope {
    fn default() -> (r: DataScope)
        ensures
            r.user_alias is None && r.dept_alias is None,
    {
        DataScope { user_alias: None, dept_alias: None }
    }
}

/// A guard against submitting the same request twice in a short time.
pub struct RepeatSubmit {
    /// Milliseconds within which a second submission is refused.
    pub interval: Option<i64>,
    pub message: Option<String>,
}

impl Default for RepeatSubmit {
    /// Five seconds, with the standard message.
    fn default() -> (r: RepeatSubmit)
        ensures
            r.interval == Some(5000i64),
            r.message matches Some(m) && m@ == "不允许重复提交，请稍候再试"@,
    {
        RepeatSubmit { interval: Some(5000), message: Some("不允许重复提交，请稍候再试".to_owned()) }
    }
}

/// How an operation is written to the audit log.
pub struct Log {
    pub title: Option<String>,
    pub business_type: Option<i32>,
    pub operator_type: Option<i32>,
    pub is_save_request_data: Option<bool>,
    pub is_save_response_data: Option<bool>,
}

impl Default for Log {
    /// No title or types; request and response are both kept.
    fn default() -> (r: Log)
        ensures
            r.title is None && r.business_type is None && r.operator_type is None,
            r.is_save_request_data == Some(true),
            r.is_save_response_data == Some(true),
    {
        Log {
            title: None,
            business_type: None,
            operator_type: None,
            is_save_request_data: Some(true),
            is_save_response_data: Some(true),
        }
    }
}

/// The validation groups a request body is checked against.
pub struct Valid {
    pub groups: Option<Vec<String>>,
}

impl Default for Valid {
    fn default() -> (r: Valid)
        ensures
            r.groups is None,
    {
        Valid { groups: None }
    }
}

/// The permission and role a handler requires.
pub struct PreAuthorize {
    pub has_perm: Option<String>,
    pub has_role: Option<String>,
    /// `AND` or `OR`.
    pub logical: Option<String>,
}

impl Default for PreAuthorize {
    /// Nothing required; both checks joined by `AND`.
    fn default() -> (r: PreAuthorize)
        ensures
            r.has_perm is None && r.has_role is None,
            r.logical matches Some(l) && l@ == "AND"@,
    {
        PreAuthorize { has_perm: None, has_role: None, logical: Some("AND".to_owned()) }
    }
}

/// Marks a handler open to callers without a token.
pub struct Anonymous;

impl Default for Anonymous {
    fn default() -> (r: Anonymous) {
        Anonymous
    }
}

} // verus!
