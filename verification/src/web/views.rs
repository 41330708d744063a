//! What the server-rendered pages are filled with: the users, streams and
//! forms behind each template, and the request bodies of the settings API.
use vstd::prelude::*;

use crate::text::{join_str, join3, string_of};
use crate::web::pages::StreamInfo;
use crate::web::stream_form::StreamConfigForEdit;

verus! {

/// The user a page request is made by.
#[derive(Debug)]
pub struct AuthenticatedUser {
    pub id: String,
    pub email: String,
}

/// The user shown in a page's header.
#[derive(Debug)]
pub struct UserInfo {
    pub id: String,
    pub username: String,
    pub is_admin: bool,
}

impl UserInfo {
    /// Nobody: the header of the pages before login.
    pub fn anonymous() -> (r: Self)
        ensures
            r.id@.len() == 0 && r.username@.len() == 0 && !r.is_admin,
    {
        UserInfo { id: String::new(), username: String::new(), is_admin: false }
    }

    /// A signed-in user; every user administers this system.
    pub fn admin(id: String, username: String) -> (r: Self)
        ensures
            r.id == id && r.username == username && r.is_admin,
    {
        UserInfo { id, username, is_admin: true }
    }
}

/// The login page.
#[derive(Debug)]
pub struct LoginTemplate {
    pub error_message: String,
    pub user: UserInfo,
    pub logged_in: bool,
}

impl LoginTemplate {
    /// The login page, with a message when the last attempt failed (empty
    /// for none).
    pub fn with_error(error_message: &str) -> (r: Self)
        ensures
            r.error_message@ == error_message@,
            r.user.id@.len() == 0 && r.user.username@.len() == 0 && !r.user.is_admin,
            !r.logged_in,
    {
        LoginTemplate { error_message: string_of(error_message), user: UserInfo::anonymous(), logged_in: false }
    }
}

/// The page that creates the first administrator.
#[derive(Debug)]
pub struct SetupTemplate {
    pub user: UserInfo,
    pub logged_in: bool,
}

impl SetupTemplate {
    pub fn new() -> (r: Self)
        ensures
            r.user.id@.len() == 0 && r.user.username@.len() == 0 && !r.user.is_admin,
            !r.logged_in,
    {
        SetupTemplate { user: UserInfo::anonymous(), logged_in: false }
    }
}

/// The dashboard.
#[derive(Debug)]
pub struct DashboardTemplate {
    pub user: UserInfo,
    pub logged_in: bool,
    pub stream_count: usize,
}

impl DashboardTemplate {
    /// The dashboard of a user with their number of streams (none when the
    /// store could not say).
    pub fn for_user(id: String, username: String, stream_count: Option<usize>) -> (r: Self)
        ensures
            r.user.id == id && r.user.username == username && r.user.is_admin,
            r.logged_in,
            r.stream_count == match stream_count {
                Some(n) => n,
                None => 0,
            },
    {
        let stream_count = match stream_count {
            Some(n) => n,
            None => 0,
        };
        DashboardTemplate { user: UserInfo::admin(id, username), logged_in: true, stream_count }
    }
}

/// The grid of stream cards.
#[derive(Debug)]
pub struct StreamsGridFragment {
    pub streams: Vec<StreamInfo>,
}

/// The message shown instead of the grid.
#[derive(Debug)]
pub struct StreamsErrorFragment {
    pub error_message: String,
}

/// The placeholder while the grid loads.
#[derive(Debug, Clone, Copy)]
pub struct StreamsLoadingFragment;

/// The page of one stream.
#[derive(Debug)]
pub struct StreamDetailTemplate {
    pub stream: StreamInfo,
    pub user: UserInfo,
    pub logged_in: bool,
}

/// One stream card.
#[derive(Debug)]
pub struct StreamCard {
    pub stream: StreamInfo,
}

/// A user on the settings page.
#[derive(Debug)]
pub struct AdminUser {
    pub id: String,
    pub username: String,
    pub email: String,
    pub created_at: String,
}

/// An API key on the settings page.
#[derive(Debug)]
pub struct AdminApiKey {
    pub id: String,
    pub name: String,
    pub created_at: String,
}

/// The login form (its user name is the e-mail address).
#[derive(Debug)]
pub struct LoginForm {
    pub username: String,
    pub password: String,
}

/// The stream form, for a new stream and for an edit.
#[derive(Debug)]
pub struct StreamFormTemplate {
    pub user: UserInfo,
    pub logged_in: bool,
    pub error_message: String,
    pub form_title: String,
    pub form_action: String,
    pub submit_button_text: String,
    pub stream_data: StreamConfigForEdit,
}

/// The user the stream form pages show.
fn form_user() -> (r: UserInfo)
    ensures
        r.id@ == "temp"@ && r.username@ == "Admin User"@ && r.is_admin,
{
    UserInfo::admin(string_of("temp"), string_of("Admin User"))
}

impl StreamFormTemplate {
    /// The form that creates a stream, with the fields of a new stream.
    pub fn for_new_stream() -> (r: Self)
        ensures
            r.user.id@ == "temp"@ && r.user.username@ == "Admin User"@ && r.user.is_admin,
            r.logged_in,
            r.error_message@.len() == 0,
            r.form_title@ == "Create New Stream"@,
            r.form_action@ == "/settings/streams/new"@,
            r.submit_button_text@ == "Create Stream"@,
            r.stream_data.snapshot_interval == 30,
    {
        StreamFormTemplate {
            user: form_user(),
            logged_in: true,
            error_message: String::new(),
            form_title: string_of("Create New Stream"),
            form_action: string_of("/settings/streams/new"),
            submit_button_text: string_of("Create Stream"),
            stream_data: StreamConfigForEdit::empty(),
        }
    }

    /// The form that edits stream `stream_id`, filled with its fields.
    pub fn for_edit(stream_id: &str, stream_data: StreamConfigForEdit) -> (r: Self)
        ensures
            r.user.id@ == "temp"@ && r.user.username@ == "Admin User"@ && r.user.is_admin,
            r.logged_in,
            r.error_message@.len() == 0,
            r.form_title@ == "Edit Stream: "@ + stream_data.name@,
            r.form_action@ == "/settings/streams/"@ + stream_id@ + "/edit"@,
            r.submit_button_text@ == "Update Stream"@,
            r.stream_data == stream_data,
    {
        let form_title = join_str("Edit Stream: ", stream_data.name.as_str());
        StreamFormTemplate {
            user: form_user(),
            logged_in: true,
            error_message: String::new(),
            form_title,
            form_action: join3("/settings/streams/", stream_id, "/edit"),
            submit_button_text: string_of("Update Stream"),
            stream_data,
        }
    }
}

/// A stream on the settings API.
#[derive(Debug)]
pub struct AdminStreamInfo {
    pub id: String,
    pub user_id: String,
    pub name: String,
    pub description: Option<String>,
    /// The configuration's `kind`.
    pub stream_type: String,
    pub is_default: bool,
    pub created_at: String,
    pub updated_at: String,
    /// `active` or `inactive`.
    pub status: String,
}

/// A request to create a user.
#[derive(Debug)]
pub struct CreateUserRequestBody {
    pub username: String,
    pub email: String,
    pub password: String,
}

/// A request to create an API key.
#[derive(Debug)]
pub struct CreateApiKeyRequestBody {
    pub name: String,
}

/// Query of a template listing.
#[derive(Debug)]
pub struct ListTemplatesQuery {
    /// Page number, from 0.
    pub page: u32,
    /// Items per page (at most 100).
    pub page_size: u32,
    pub search: Option<String>,
    pub user_id: Option<String>,
}

/// The page size when a template listing names none.
pub fn default_page_size() -> (r: u32)
    ensures
        r == 20,
{
    20
}

/// The API description of the stream endpoints.
#[derive(Debug, Clone, Copy)]
pub struct StreamApiDoc;

} // verus!
