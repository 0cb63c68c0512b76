//! Typed failures that the service layer raises.
use vstd::prelude::*;
use crate::text::push_str;

verus! {

/// A business rule was broken; it carries a code, 500 unless given.
pub struct BusinessException {
    pub message: String,
    pub error_code: i32,
}

impl BusinessException {
    pub fn new(message: &str) -> (r: BusinessException)
        ensures
            r.message@ == message@,
            r.error_code == 500,
    {
        BusinessException { message: message.to_owned(), error_code: 500 }
    }

    pub fn with_code(message: &str, error_code: i32) -> (r: BusinessException)
        ensures
            r.message@ == message@,
            r.error_code == error_code,
    {
        BusinessException { message: message.to_owned(), error_code }
    }

    /// `BusinessException: message`.
    pub fn describe(&self) -> (r: String)
        ensures
            r@ == "BusinessException: "@ + self.message@,
    {
        let mut s = "BusinessException: ".to_owned();
        push_str(&mut s, self.message.as_str());
        s
    }
}

/// A request parameter is wrong.
pub struct ParameterException {
    pub message: String,
}

impl ParameterException {
    pub fn new(message: &str) -> (r: ParameterException)
        ensures
            r.message@ == message@,
    {
        ParameterException { message: message.to_owned() }
    }

    /// `ParameterException: message`.
    pub fn describe(&self) -> (r: String)
        ensures
            r@ == "ParameterException: "@ + self.message@,
    {
        let mut s = "ParameterException: ".to_owned();
        push_str(&mut s, self.message.as_str());
        s
    }
}

/// The caller could not be authenticated.
pub struct AuthenticationException {
    pub message: String,
}

impl AuthenticationException {
    pub fn new(message: &str) -> (r: AuthenticationException)
        ensures
            r.message@ == message@,
    {
        AuthenticationException { message: message.to_owned() }
    }

    /// `AuthenticationException: message`.
    pub fn describe(&self) -> (r: String)
        ensures
            r@ == "AuthenticationException: "@ + self.message@,
    {
        let mut s = "AuthenticationException: ".to_owned();
        push_str(&mut s, self.message.as_str());
        s
    }
}

/// The caller may not do this.
pub struct AuthorizationException {
    pub message: String,
}

impl AuthorizationException {
    pub fn new(message: &str) -> (r: AuthorizationException)
        ensures
            r.message@ == message@,
    {
        AuthorizationException { message: message.to_owned() }
    }

    /// `AuthorizationException: message`.
    pub fn describe(&self) -> (r: String)
        ensures
            r@ == "AuthorizationException: "@ + self.message@,
    {
        let mut s = "AuthorizationException: ".to_owned();
        push_str(&mut s, self.message.as_str());
        s
    }
}

/// The data asked for does not exist.
pub struct DataNotFoundException {
    pub message: String,
}

impl DataNotFoundException {
    pub fn new(message: &str) -> (r: DataNotFoundException)
        ensures
            r.message@ == message@,
    {
        DataNotFoundException { message: message.to_owned() }
    }

    /// `DataNotFoundException: message`.
    pub fn describe(&self) -> (r: String)
        ensures
            r@ == "DataNotFoundException: "@ + self.message@,
    {
        let mut s = "DataNotFoundException: ".to_owned();
        push_str(&mut s, self.message.as_str());
        s
    }
}

/// The data to create exists already.
pub struct DataAlreadyExistsException {
    pub message: String,
}

impl DataAlreadyExistsException {
    pub fn new(message: &str) -> (r: DataAlreadyExistsException)
        ensures
            r.message@ == message@,
    {
        DataAlreadyExistsException { message: message.to_owned() }
    }

    /// `DataAlreadyExistsException: message`.
    pub fn describe(&self) -> (r: String)
        ensures
            r@ == "DataAlreadyExistsException: "@ + self.message@,
    {
        let mut s = "DataAlreadyExistsException: ".to_owned();
        push_str(&mut s, self.message.as_str());
        s
    }
}

/// The system failed.
pub struct SystemException {
    pub message: String,
}

impl SystemException {
    pub fn new(message: &str) -> (r: SystemException)
        ensures
            r.message@ == message@,
    {
        SystemException { message: message.to_owned() }
    }

    /// `SystemException: message`.
    pub fn describe(&self) -> (r: String)
        ensures
            r@ == "SystemException: "@ + self.message@,
    {
        let mut s = "SystemException: ".to_owned();
        push_str(&mut s, self.message.as_str());
        s
    }
}

/// A file operation failed.
pub struct FileOperationException {
    pub message: String,
}

impl FileOperationException {
    pub fn new(message: &str) -> (r: FileOperationException)
        ensures
            r.message@ == message@,
    {
        FileOperationException { message: message.to_owned() }
    }

    /// `FileOperationException: message`.
    pub fn describe(&self) -> (r: String)
        ensures
            r@ == "FileOperationException: "@ + self.message@,
    {
        let mut s = "FileOperationException: ".to_owned();
        push_str(&mut s, self.message.as_str());
        s
    }
}

/// The captcha was wrong or has expired.
pub struct CaptchaException {
    pub message: String,
}

impl CaptchaException {
    pub fn new(message: &str) -> (r: CaptchaException)
        ensures
            r.message@ == message@,
    {
        CaptchaException { message: message.to_owned() }
    }

    /// `CaptchaException: message`.
    pub fn describe(&self) -> (r: String)
        ensures
            r@ == "CaptchaException: "@ + self.message@,
    {
        let mut s = "CaptchaException: ".to_owned();
        push_str(&mut s, self.message.as_str());
        s
    }
}

/// The token was refused.
pub struct TokenException {
    pub message: String,
}

impl TokenException {
    pub fn new(message: &str) -> (r: TokenException)
        ensures
            r.message@ == message@,
    {
        TokenException { message: message.to_owned() }
    }

    /// `TokenException: message`.
    pub fn describe(&self) -> (r: String)
        ensures
            r@ == "TokenException: "@ + self.message@,
    {
        let mut s = "TokenException: ".to_owned();
        push_str(&mut s, self.message.as_str());
        s
    }
}

/// The user account is in a wrong state.
pub struct UserException {
    pub message: String,
}

impl UserException {
    pub fn new(message: &str) -> (r: UserException)
        ensures
            r.message@ == message@,
    {
        UserException { message: message.to_owned() }
    }

    /// `UserException: message`.
    pub fn describe(&self) -> (r: String)
        ensures
            r@ == "UserException: "@ + self.message@,
    {
        let mut s = "UserException: ".to_owned();
        push_str(&mut s, self.message.as_str());
        s
    }
}

/// A permission is missing.
pub struct PermissionException {
    pub message: String,
}

impl PermissionException {
    pub fn new(message: &str) -> (r: PermissionException)
        ensures
            r.message@ == message@,
    {
        PermissionException { message: message.to_owned() }
    }

    /// `PermissionException: message`.
    pub fn describe(&self) -> (r: String)
        ensures
            r@ == "PermissionException: "@ + self.message@,
    {
        let mut s = "PermissionException: ".to_owned();
        push_str(&mut s, self.message.as_str());
        s
    }
}

/// The operation is forbidden.
pub struct ForbiddenException {
    pub message: String,
}

impl ForbiddenException {
    pub fn new(message: &str) -> (r: ForbiddenException)
        ensures
            r.message@ == message@,
    {
        ForbiddenException { message: message.to_owned() }
    }

    /// `ForbiddenException: message`.
    pub fn describe(&self) -> (r: String)
        ensures
            r@ == "ForbiddenException: "@ + self.message@,
    {
        let mut s = "ForbiddenException: ".to_owned();
        push_str(&mut s, self.message.as_str());
        s
    }
}

/// Too many requests came in.
pub struct TooManyRequestsException {
    pub message: String,
}

impl TooManyRequestsException {
    pub fn new(message: &str) -> (r: TooManyRequestsException)
        ensures
            r.message@ == message@,
    {
        TooManyRequestsException { message: message.to_owned() }
    }

    /// `TooManyRequestsException: message`.
    pub fn describe(&self) -> (r: String)
        ensures
            r@ == "TooManyRequestsException: "@ + self.message@,
    {
        let mut s = "TooManyRequestsException: ".to_owned();
        push_str(&mut s, self.message.as_str());
        s
    }
}

/// A service is unavailable.
pub struct ServiceUnavailableException {
    pub message: String,
}

impl ServiceUnavailableException {
    pub fn new(message: &str) -> (r: ServiceUnavailableException)
        ensures
            r.message@ == message@,
    {
        ServiceUnavailableException { message: message.to_owned() }
    }

    /// `ServiceUnavailableException: message`.
    pub fn describe(&self) -> (r: String)
        ensures
            r@ == "ServiceUnavailableException: "@ + self.message@,
    {
        let mut s = "ServiceUnavailableException: ".to_owned();
        push_str(&mut s, self.message.as_str());
        s
    }
}

} // verus!
