//! Model for accessing root level API requests.

use std::collections::HashMap;

use vstd::prelude::*;
use vstd::string::StringExecFns;

use crate::digits::spec_dec_digits;
use crate::digits::usize_to_string;
use crate::error::ApiError;
use crate::models::course::Course;
use crate::parameters::RequestParameter;
use crate::parameters::spec_param_view;
use crate::requests::GetObjectRequest;
use crate::requests::GetObjectRequestMap;
use crate::requests::GetPagedObjectRequest;

verus! {

/// Model for accessing root level API requests.
pub struct Canvas;

impl Canvas {
    /// Get the number of unread conversations for the current user.
    pub fn conversations_unread_count() -> (r: Result<GetObjectRequestMap<usize>, ApiError>)
        ensures
            r matches Ok(req) && req.spec_url() == "conversations/unread_count"@ && req.spec_key()
                == "unread_count"@ && req.spec_parameters() == Seq::<RequestParameter>::empty(),
    {
        Ok(
            GetObjectRequestMap::new(
                String::from_str("conversations/unread_count"),
                String::from_str("unread_count"),
            ),
        )
    }

    /// Get a course with a specific id.
    pub fn get_course(id: usize) -> (r: Result<GetObjectRequest<Course>, ApiError>)
        ensures
            r matches Ok(req) && req.spec_url() == "courses/"@ + spec_dec_digits(id as nat)
                && req.spec_parameters() == Seq::<RequestParameter>::empty(),
    {
        let mut url = String::from_str("courses/");
        url.append(usize_to_string(id).as_str());
        Ok(GetObjectRequest::new(url))
    }

    /// Return the current user's list of todo items, as seen on the user
    /// dashboard.
    pub fn get_todo_items() -> (r: Result<
        GetPagedObjectRequest<HashMap<String, serde_json::Value>>,
        ApiError,
    >)
        ensures
            r matches Ok(req) && req.spec_url() == "users/self/todo"@ && req.spec_parameters()
                == Seq::<RequestParameter>::empty(),
    {
        Ok(GetPagedObjectRequest::new(String::from_str("users/self/todo")))
    }

    /// Returns a list of courses that match the search criteria: the
    /// search terms always, and each of the two restriction flags only
    /// when it is set.
    pub fn search_course(search: String, public_only: bool, open_enrollment_only: bool) -> (r:
        Result<GetPagedObjectRequest<serde_json::Value>, ApiError>)
        ensures
            r matches Ok(req) && req.spec_url() == "search/all_courses/"@
                && req.spec_parameters().len() == 1 + (if public_only {
                1 as int
            } else {
                0 as int
            }) + (if open_enrollment_only {
                1 as int
            } else {
                0 as int
            }) && spec_param_view(req.spec_parameters()[0]) == ("search"@, search@) && (public_only
                ==> spec_param_view(req.spec_parameters()[1]) == ("public_only"@, "true"@)) && (
            open_enrollment_only ==> spec_param_view(
                req.spec_parameters()[if public_only {
                    2 as int
                } else {
                    1 as int
                }],
            ) == ("open_enrollment_only"@, "true"@)),
    {
        let mut request = GetPagedObjectRequest::new(
            String::from_str("search/all_courses/"),
        ).add_parameter(RequestParameter { name: String::from_str("search"), value: search });

        if public_only {
            request = request.add_parameter(
                RequestParameter {
                    name: String::from_str("public_only"),
                    value: String::from_str("true"),
                },
            );
        }

        if open_enrollment_only {
            request = request.add_parameter(
                RequestParameter {
                    name: String::from_str("open_enrollment_only"),
                    value: String::from_str("true"),
                },
            );
        }

        Ok(request)
    }
}

} // verus!
