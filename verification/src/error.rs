use vstd::prelude::*;

verus! {

/// The body every failed request is answered with.
#[derive(Clone, PartialEq, Eq, Debug)]
pub struct AppResponseError {
    pub kind: String,
    pub error_message: String,
    pub code: Option<i32>,
    pub details: Vec<(String, String)>,
}

impl AppResponseError {
    /// Builds a response error from its parts.
    pub fn new(kind: String, message: String, code: Option<i32>, details: Vec<(String, String)>)
        -> (r: AppResponseError)
        ensures
            r.kind == kind,
            r.error_message == message,
            r.code == code,
            r.details == details,
    {
        AppResponseError { kind, error_message: message, code, details }
    }
}

/// The kinds of resource a request can fail over.
#[derive(Clone, Copy, PartialEq, Eq, PartialOrd, Ord, Structural, Debug)]
pub enum ResourceType {
    User,
    File,
    Session,
    Message,
    Store,
}

impl ResourceType {
    /// The label the resource is reported under.
    pub open spec fn spec_label(self) -> Seq<char> {
        match self {
            ResourceType::User => "USER"@,
            ResourceType::File => "FILE"@,
            ResourceType::Session => "SESSION"@,
            ResourceType::Message => "MESSAGE"@,
            ResourceType::Store => "STORE"@,
        }
    }

    /// The numeric code the resource is reported under.
    pub open spec fn spec_code(self) -> i32 {
        match self {
            ResourceType::User => 0,
            ResourceType::File => 1,
            ResourceType::Session => 2,
            ResourceType::Message => 3,
            ResourceType::Store => 4,
        }
    }

    /// The label the resource is reported under.
    pub fn label(&self) -> (r: String)
        ensures
            r@ == self.spec_label(),
    {
        match self {
            ResourceType::User => String::from_str("USER"),
            ResourceType::File => String::from_str("FILE"),
            ResourceType::Session => String::from_str("SESSION"),
            ResourceType::Message => String::from_str("MESSAGE"),
            ResourceType::Store => String::from_str("STORE"),
        }
    }

    /// The numeric code the resource is reported under.
    pub fn code(&self) -> (r: i32)
        ensures
            r == self.spec_code(),
    {
        match self {
            ResourceType::User => 0,
            ResourceType::File => 1,
            ResourceType::Session => 2,
            ResourceType::Message => 3,
            ResourceType::Store => 4,
        }
    }
}

/// A resource a request failed over, with the key/value details reported
/// alongside it.
#[derive(Clone, PartialEq, Eq, Debug)]
pub struct Resource {
    pub details: Vec<(String, String)>,
    pub resource_type: ResourceType,
}

impl Resource {
    /// The label the resource is reported under.
    pub fn label(&self) -> (r: String)
        ensures
            r@ == self.resource_type.spec_label(),
    {
        self.resource_type.label()
    }
}

/// The application's error surface: a closed set of variants, each mapped
/// to a fixed status code and report shape.  Failures that wrap values of
/// outside libraries are translated into these by the surrounding process.
#[derive(Clone, PartialEq, Eq, Debug)]
pub enum AppError {
    NotFoundError(Resource),
    NotAvailableError(Resource),
    ResourceExistsError(Resource),
    PermissionDeniedError(String),
    UserNotActiveError(String),
    InvalidSessionError(String),
    ConflictError(String),
    UnauthorizedError(String),
    BadRequestError(String),
    InvalidPayloadError(String),
}

/// The input/output failure kinds the response mapping distinguishes.  The
/// surrounding process reduces a platform error to one of these and hands
/// the error's own text alongside.
#[derive(Clone, Copy, PartialEq, Eq, Structural, Debug)]
pub enum IoErrorKind {
    NotFound,
    PermissionDenied,
    Other,
}

pub const STATUS_BAD_REQUEST: u16 = 400;

pub const STATUS_UNAUTHORIZED: u16 = 401;

pub const STATUS_FORBIDDEN: u16 = 403;

pub const STATUS_NOT_FOUND: u16 = 404;

pub const STATUS_CONFLICT: u16 = 409;

pub const STATUS_INTERNAL_SERVER_ERROR: u16 = 500;

impl AppError {
    /// The status code the error is answered with.
    pub open spec fn spec_status(self) -> u16 {
        match self {
            AppError::NotFoundError(_) => STATUS_NOT_FOUND,
            AppError::NotAvailableError(_) => STATUS_NOT_FOUND,
            AppError::ResourceExistsError(_) => STATUS_CONFLICT,
            AppError::PermissionDeniedError(_) => STATUS_FORBIDDEN,
            AppError::UserNotActiveError(_) => STATUS_FORBIDDEN,
            AppError::InvalidSessionError(_) => STATUS_BAD_REQUEST,
            AppError::ConflictError(_) => STATUS_INTERNAL_SERVER_ERROR,
            AppError::UnauthorizedError(_) => STATUS_UNAUTHORIZED,
            AppError::BadRequestError(_) => STATUS_BAD_REQUEST,
            AppError::InvalidPayloadError(_) => STATUS_BAD_REQUEST,
        }
    }

    /// The kind string the error is reported under.
    pub open spec fn spec_kind(self) -> Seq<char> {
        match self {
            AppError::NotFoundError(r) => r.resource_type.spec_label() + "_NOT_FOUND_ERROR"@,
            AppError::NotAvailableError(r) => r.resource_type.spec_label()
                + "_NOT_AVAILABLE_ERROR"@,
            AppError::ResourceExistsError(r) => r.resource_type.spec_label()
                + "_ALREADY_EXISTS_ERROR"@,
            AppError::PermissionDeniedError(_) => "PERMISSION_DENIED_ERROR"@,
            AppError::UserNotActiveError(_) => "USER_NOT_ACTIVE_ERROR"@,
            AppError::InvalidSessionError(_) => "INVALID_SESSION_ERROR"@,
            AppError::ConflictError(_) => "CONFLICT_ERROR"@,
            AppError::UnauthorizedError(_) => "UNAUTHORIZED_ERROR"@,
            AppError::BadRequestError(_) => "BAD_REQUEST_ERROR"@,
            AppError::InvalidPayloadError(_) => "INVALID_PAYLOAD_ERROR"@,
        }
    }

    /// The human-readable message the error is reported with.
    pub open spec fn spec_message(self) -> Seq<char> {
        match self {
            AppError::NotFoundError(r) => r.resource_type.spec_label() + " not found"@,
            AppError::NotAvailableError(r) => r.resource_type.spec_label() + " not available"@,
            AppError::ResourceExistsError(r) => r.resource_type.spec_label() + " already exists"@,
            AppError::PermissionDeniedError(m) => m@,
            AppError::UserNotActiveError(m) => m@,
            AppError::InvalidSessionError(m) => m@,
            AppError::ConflictError(m) => m@,
            AppError::UnauthorizedError(m) => m@,
            AppError::BadRequestError(m) => "bad request "@ + m@,
            AppError::InvalidPayloadError(m) => m@,
        }
    }

    /// The numeric code the error is reported with, present only where a
    /// resource is named.
    pub open spec fn spec_code(self) -> Option<i32> {
        match self {
            AppError::NotFoundError(r) => Some(r.resource_type.spec_code()),
            AppError::ResourceExistsError(r) => Some(r.resource_type.spec_code()),
            _ => None,
        }
    }

    /// The details the error is reported with.
    pub open spec fn spec_details(self) -> Seq<(String, String)> {
        match self {
            AppError::NotFoundError(r) => r.details@,
            AppError::ResourceExistsError(r) => r.details@,
            _ => Seq::empty(),
        }
    }

    /// Maps the error to the status code and response body it is answered
    /// with, exactly as `spec_status`, `spec_kind`, `spec_message`,
    /// `spec_code` and `spec_details` state.
    pub fn response(self) -> (r: (u16, AppResponseError))
        ensures
            r.0 == self.spec_status(),
            r.1.kind@ == self.spec_kind(),
            r.1.error_message@ == self.spec_message(),
            r.1.code == self.spec_code(),
            r.1.details@ == self.spec_details(),
    {
        match self {
            AppError::NotFoundError(resource) => {
                let kind = resource.label().concat("_NOT_FOUND_ERROR");
                let message = resource.label().concat(" not found");
                let code = Some(resource.resource_type.code());
                (STATUS_NOT_FOUND, AppResponseError::new(kind, message, code, resource.details))
            },
            AppError::NotAvailableError(resource) => {
                let kind = resource.label().concat("_NOT_AVAILABLE_ERROR");
                let message = resource.label().concat(" not available");
                (STATUS_NOT_FOUND, AppResponseError::new(kind, message, None, Vec::new()))
            },
            AppError::ResourceExistsError(resource) => {
                let kind = resource.label().concat("_ALREADY_EXISTS_ERROR");
                let message = resource.label().concat(" already exists");
                let code = Some(resource.resource_type.code());
                (STATUS_CONFLICT, AppResponseError::new(kind, message, code, resource.details))
            },
            AppError::PermissionDeniedError(m) => (
                STATUS_FORBIDDEN,
                AppResponseError::new(
                    String::from_str("PERMISSION_DENIED_ERROR"),
                    m,
                    None,
                    Vec::new(),
                ),
            ),
            AppError::UserNotActiveError(m) => (
                STATUS_FORBIDDEN,
                AppResponseError::new(
                    String::from_str("USER_NOT_ACTIVE_ERROR"),
                    m,
                    None,
                    Vec::new(),
                ),
            ),
            AppError::InvalidSessionError(m) => (
                STATUS_BAD_REQUEST,
                AppResponseError::new(
                    String::from_str("INVALID_SESSION_ERROR"),
                    m,
                    None,
                    Vec::new(),
                ),
            ),
            AppError::ConflictError(m) => (
                STATUS_INTERNAL_SERVER_ERROR,
                AppResponseError::new(String::from_str("CONFLICT_ERROR"), m, None, Vec::new()),
            ),
            AppError::UnauthorizedError(m) => (
                STATUS_UNAUTHORIZED,
                AppResponseError::new(String::from_str("UNAUTHORIZED_ERROR"), m, None, Vec::new()),
            ),
            AppError::BadRequestError(m) => (
                STATUS_BAD_REQUEST,
                AppResponseError::new(
                    String::from_str("BAD_REQUEST_ERROR"),
                    String::from_str("bad request ").concat(m.as_str()),
                    None,
                    Vec::new(),
                ),
            ),
            AppError::InvalidPayloadError(m) => (
                STATUS_BAD_REQUEST,
                AppResponseError::new(
                    String::from_str("INVALID_PAYLOAD_ERROR"),
                    m,
                    None,
                    Vec::new(),
                ),
            ),
        }
    }
}

/// The status an input/output failure is answered with.
pub open spec fn spec_io_status(kind: IoErrorKind) -> u16 {
    match kind {
        IoErrorKind::NotFound => STATUS_NOT_FOUND,
        IoErrorKind::PermissionDenied => STATUS_FORBIDDEN,
        IoErrorKind::Other => STATUS_INTERNAL_SERVER_ERROR,
    }
}

/// The kind string an input/output failure is reported under.
pub open spec fn spec_io_kind(kind: IoErrorKind) -> Seq<char> {
    match kind {
        IoErrorKind::NotFound => ResourceType::File.spec_label() + "_NOT_FOUND_ERROR"@,
        IoErrorKind::PermissionDenied => "FORBIDDEN_ERROR"@,
        IoErrorKind::Other => "IO_ERROR"@,
    }
}

/// The numeric code an input/output failure is reported with: the file
/// resource's code when the file was not found, nothing otherwise.
pub open spec fn spec_io_code(kind: IoErrorKind) -> Option<i32> {
    match kind {
        IoErrorKind::NotFound => Some(ResourceType::File.spec_code()),
        IoErrorKind::PermissionDenied => None,
        IoErrorKind::Other => None,
    }
}

/// Maps an input/output failure to the status code and response body it is
/// answered with: a missing file is reported as the file resource not being
/// found, a permission failure as forbidden, and anything else as an
/// internal error, each carrying the platform error's own text.
pub fn io_error_response(kind: IoErrorKind, message: String) -> (r: (u16, AppResponseError))
    ensures
        r.0 == spec_io_status(kind),
        r.1.kind@ == spec_io_kind(kind),
        r.1.error_message == message,
        r.1.code == spec_io_code(kind),
        r.1.details@ == Seq::<(String, String)>::empty(),
{
    match kind {
        IoErrorKind::NotFound => (
            STATUS_NOT_FOUND,
            AppResponseError::new(
                ResourceType::File.label().concat("_NOT_FOUND_ERROR"),
                message,
                Some(ResourceType::File.code()),
                Vec::new(),
            ),
        ),
        IoErrorKind::PermissionDenied => (
            STATUS_FORBIDDEN,
            AppResponseError::new(
                String::from_str("FORBIDDEN_ERROR"),
                message,
                None,
                Vec::new(),
            ),
        ),
        IoErrorKind::Other => (
            STATUS_INTERNAL_SERVER_ERROR,
            AppResponseError::new(String::from_str("IO_ERROR"), message, None, Vec::new()),
        ),
    }
}

} // verus!
