//! Model for managing files stored with Canvas.

use vstd::prelude::*;
use vstd::string::StringExecFns;

use crate::error::ApiError;

verus! {

/// A file attached to a course.
pub struct File {
    pub id: usize,
    pub uuid: Option<String>,
    pub folder_id: Option<usize>,
    pub display_name: Option<String>,
    pub filename: Option<String>,
    pub content_type: Option<String>,
    pub url: Option<String>,
    pub size: Option<usize>,
    pub created_at: Option<String>,
    pub updated_at: Option<String>,
    pub unlock_at: Option<String>,
    pub locked: Option<bool>,
    pub hidden: Option<bool>,
    pub thumbnail_url: Option<String>,
    pub modified_at: Option<String>,
    pub mime_class: Option<String>,
    pub media_entry_id: Option<String>,
    pub locked_for_user: Option<bool>,
    pub lock_info: Option<String>,
    pub lock_explanation: Option<String>,
    pub preview_url: Option<String>,
}

impl File {
    /// Where a download of this file reads from and what it is called:
    /// the file's URL and its name. Fails, before any network call, when
    /// either field is absent on the entity; the URL is checked first.
    pub fn download_source(&self) -> (r: Result<(String, String), ApiError>)
        ensures
            self.url is None ==> (r matches Err(ApiError::MissingField(f)) && f@ == "url"@),
            self.url is Some && self.filename is None ==> (r matches Err(
                ApiError::MissingField(f),
            ) && f@ == "filename"@),
            self.url is Some && self.filename is Some ==> (r matches Ok(p) && p.0@ == self.url->0@
                && p.1@ == self.filename->0@),
    {
        let url = match &self.url {
            Some(u) => u.clone(),
            None => {
                return Err(ApiError::MissingField(String::from_str("url")));
            },
        };
        let name = match &self.filename {
            Some(n) => n.clone(),
            None => {
                return Err(ApiError::MissingField(String::from_str("filename")));
            },
        };
        Ok((url, name))
    }
}

} // verus!
