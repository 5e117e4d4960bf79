//! What can go wrong, how it is worded, and the HTTP status it is answered
//! with.

use crate::json::{members_view, push_member, Json, JsonValue};
use crate::text::same_text;
use vstd::prelude::*;
use vstd::std_specs::cmp::PartialEqSpecImpl;
use vstd::string::*;

verus! {

/// What went wrong.
#[derive(Debug)]
pub enum Error {
    Generic { description: String },
    LoginFail,
    AuthFailCtxNotInRequestExt,
    /// No record with this identifier is stored.
    DbRecordNoResult { source: String, id: String },
    /// A request to the language model failed, or its answer could not be
    /// read.
    ClientReqError { source: String },
    /// What was asked for is not there.
    NotFound { description: String },
    /// The request was in order and could not be served.
    Internal { description: String },
}

/// What an error holds.
pub enum ErrorView {
    Generic { description: Seq<char> },
    LoginFail,
    AuthFailCtxNotInRequestExt,
    DbRecordNoResult { source: Seq<char>, id: Seq<char> },
    ClientReqError { source: Seq<char> },
    NotFound { description: Seq<char> },
    Internal { description: Seq<char> },
}

impl View for Error {
    type V = ErrorView;

    open spec fn view(&self) -> ErrorView {
        match *self {
            Error::Generic { description } => ErrorView::Generic { description: description@ },
            Error::LoginFail => ErrorView::LoginFail,
            Error::AuthFailCtxNotInRequestExt => ErrorView::AuthFailCtxNotInRequestExt,
            Error::DbRecordNoResult { source, id } => ErrorView::DbRecordNoResult {
                source: source@,
                id: id@,
            },
            Error::ClientReqError { source } => ErrorView::ClientReqError { source: source@ },
            Error::NotFound { description } => ErrorView::NotFound { description: description@ },
            Error::Internal { description } => ErrorView::Internal { description: description@ },
        }
    }
}

impl DeepView for Error {
    type V = ErrorView;

    open spec fn deep_view(&self) -> ErrorView {
        self@
    }
}

impl ErrorView {
    /// The error in words.
    pub open spec fn message(self) -> Seq<char> {
        match self {
            ErrorView::Generic { description } => description,
            ErrorView::LoginFail => "Login fail"@,
            ErrorView::AuthFailCtxNotInRequestExt => "Auth fail - Ctx not in request extensions"@,
            ErrorView::DbRecordNoResult { source, id } => "No record for id "@ + id,
            ErrorView::ClientReqError { source } => source,
            ErrorView::NotFound { description } => description,
            ErrorView::Internal { description } => description,
        }
    }

    /// The HTTP status that answers the error: 404 where something is not
    /// there, 401 where the caller is not known, 500 where the language
    /// model or the service itself failed, and 403 otherwise.
    pub open spec fn status(self) -> int {
        match self {
            ErrorView::DbRecordNoResult { .. } => 404,
            ErrorView::NotFound { .. } => 404,
            ErrorView::AuthFailCtxNotInRequestExt => 401,
            ErrorView::ClientReqError { .. } => 500,
            ErrorView::Internal { .. } => 500,
            ErrorView::Generic { .. } => 403,
            ErrorView::LoginFail => 403,
        }
    }
}

impl Clone for Error {
    fn clone(&self) -> (out: Self)
        ensures
            out@ == self@,
    {
        match self {
            Error::Generic { description } => Error::Generic { description: description.clone() },
            Error::LoginFail => Error::LoginFail,
            Error::AuthFailCtxNotInRequestExt => Error::AuthFailCtxNotInRequestExt,
            Error::DbRecordNoResult { source, id } => Error::DbRecordNoResult {
                source: source.clone(),
                id: id.clone(),
            },
            Error::ClientReqError { source } => Error::ClientReqError { source: source.clone() },
            Error::NotFound { description } => Error::NotFound {
                description: description.clone(),
            },
            Error::Internal { description } => Error::Internal {
                description: description.clone(),
            },
        }
    }
}

impl PartialEq for Error {
    fn eq(&self, other: &Self) -> (same: bool) {
        match (self, other) {
            (Error::Generic { description: a }, Error::Generic { description: b }) => same_text(
                a.as_str(),
                b.as_str(),
            ),
            (Error::LoginFail, Error::LoginFail) => true,
            (Error::AuthFailCtxNotInRequestExt, Error::AuthFailCtxNotInRequestExt) => true,
            (
                Error::DbRecordNoResult { source: a, id: c },
                Error::DbRecordNoResult { source: b, id: d },
            ) => same_text(a.as_str(), b.as_str()) && same_text(c.as_str(), d.as_str()),
            (Error::ClientReqError { source: a }, Error::ClientReqError { source: b }) => same_text(
                a.as_str(),
                b.as_str(),
            ),
            (Error::NotFound { description: a }, Error::NotFound { description: b }) => same_text(
                a.as_str(),
                b.as_str(),
            ),
            (Error::Internal { description: a }, Error::Internal { description: b }) => same_text(
                a.as_str(),
                b.as_str(),
            ),
            _ => false,
        }
    }
}

impl PartialEqSpecImpl for Error {
    open spec fn obeys_eq_spec() -> bool {
        true
    }

    open spec fn eq_spec(&self, other: &Self) -> bool {
        self@ == other@
    }
}

impl Eq for Error {

}

impl Error {
    /// The error in words.
    pub fn to_string(&self) -> (out: String)
        ensures
            out@ == self@.message(),
    {
        match self {
            Error::Generic { description } => description.clone(),
            Error::LoginFail => String::from_str("Login fail"),
            Error::AuthFailCtxNotInRequestExt => String::from_str(
                "Auth fail - Ctx not in request extensions",
            ),
            Error::DbRecordNoResult { source: _, id } => {
                let mut out = String::from_str("No record for id ");
                out.append(id.as_str());
                out
            },
            Error::ClientReqError { source } => source.clone(),
            Error::NotFound { description } => description.clone(),
            Error::Internal { description } => description.clone(),
        }
    }

    /// The HTTP status that answers the error.
    pub fn status_code(&self) -> (code: u16)
        ensures
            code == self@.status(),
    {
        match self {
            Error::DbRecordNoResult { .. } => 404,
            Error::NotFound { .. } => 404,
            Error::AuthFailCtxNotInRequestExt => 401,
            Error::ClientReqError { .. } => 500,
            Error::Internal { .. } => 500,
            Error::Generic { .. } => 403,
            Error::LoginFail => 403,
        }
    }
}

/// An error together with the identifier of the request that met it.
#[derive(Debug)]
pub struct ApiError {
    pub error: Error,
    /// The identifier that was given to the request when it came in.
    pub req_id: String,
}

/// The body that answers `error` for the request `req_id`: an object with
/// the one member `error`, itself an object with the error in words under
/// `error` and the identifier under `req_id`.
pub open spec fn error_body(error: ErrorView, req_id: Seq<char>) -> JsonValue {
    JsonValue::Object(
        seq![
            (
                "error"@,
                JsonValue::Object(
                    seq![
                        ("error"@, JsonValue::Text(error.message())),
                        ("req_id"@, JsonValue::Text(req_id)),
                    ],
                ),
            ),
        ],
    )
}

/// The body that answers a request for which there is no route.
pub open spec fn no_route_body() -> JsonValue {
    JsonValue::Object(
        seq![
            ("error"@, JsonValue::Text("Not Found"@)),
            ("message"@, JsonValue::Text("The requested resource could not be found."@)),
        ],
    )
}

impl ApiError {
    pub fn new(error: Error, req_id: String) -> (out: Self)
        ensures
            out.error@ == error@,
            out.req_id@ == req_id@,
    {
        Self { error, req_id }
    }

    /// The HTTP status that answers the error.
    pub fn status_code(&self) -> (code: u16)
        ensures
            code == self.error@.status(),
    {
        self.error.status_code()
    }

    /// The body that answers the error.
    pub fn body(&self) -> (out: Json)
        ensures
            out@ == error_body(self.error@, self.req_id@),
    {
        let mut inner: Vec<(String, Json)> = Vec::new();
        proof {
            assert(members_view(inner@) =~= Seq::empty());
        }
        push_member(&mut inner, "error", Json::text(self.error.to_string()));
        push_member(&mut inner, "req_id", Json::text(self.req_id.clone()));
        proof {
            assert(members_view(inner@) =~= seq![
                ("error"@, JsonValue::Text(self.error@.message())),
                ("req_id"@, JsonValue::Text(self.req_id@)),
            ]);
        }
        let inner = Json::object(inner);
        let mut outer: Vec<(String, Json)> = Vec::new();
        proof {
            assert(members_view(outer@) =~= Seq::empty());
        }
        push_member(&mut outer, "error", inner);
        proof {
            assert(members_view(outer@) =~= seq![("error"@, inner@)]);
        }
        Json::object(outer)
    }
}

/// The answer to a request for which there is no route: the status 404 and
/// its body.
pub fn handler_404() -> (out: (u16, Json))
    ensures
        out.0 == 404,
        out.1@ == no_route_body(),
{
    let mut members: Vec<(String, Json)> = Vec::new();
    proof {
        assert(members_view(members@) =~= Seq::empty());
    }
    push_member(&mut members, "error", Json::text(String::from_str("Not Found")));
    push_member(
        &mut members,
        "message",
        Json::text(String::from_str("The requested resource could not be found.")),
    );
    proof {
        assert(members_view(members@) =~= seq![
            ("error"@, JsonValue::Text("Not Found"@)),
            ("message"@, JsonValue::Text("The requested resource could not be found."@)),
        ]);
    }
    (404, Json::object(members))
}

} // verus!
