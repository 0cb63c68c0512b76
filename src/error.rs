//! The error type of the service layer, its HTTP codes and its texts.
use vstd::prelude::*;
use crate::exception::{
    AuthenticationException, AuthorizationException, BusinessException, CaptchaException,
    DataAlreadyExistsException, DataNotFoundException, FileOperationException, ForbiddenException,
    ParameterException, PermissionException, ServiceUnavailableException, SystemException,
    TokenException, TooManyRequestsException, UserException,
};
use crate::response::AjaxResult;
use crate::text::{decimal, push_decimal, push_str};

verus! {

/// A failure of the service layer. The variants from `Io` on carry the text
/// of an error of the I/O, JSON, SQL, cache or token libraries.
pub enum ZzylError {
    Database(String),
    Authentication(String),
    Authorization(String),
    InvalidParameter(String),
    Business(String),
    System(String),
    FileOperation(String),
    Network(String),
    Configuration(String),
    Serialization(String),
    Captcha(String),
    Token(String),
    User(String),
    Permission(String),
    NotFound(String),
    AlreadyExists(String),
    Forbidden(String),
    TooManyRequests(String),
    ServiceUnavailable(String),
    Io(String),
    Json(String),
    Sql(String),
    Redis(String),
    Jwt(String),
    HttpStatus(u16),
}

/// The HTTP status of an error.
pub open spec fn status_of(e: ZzylError) -> int {
    match e {
        ZzylError::InvalidParameter(_) => 400,
        ZzylError::Authentication(_) => 401,
        ZzylError::Authorization(_) => 403,
        ZzylError::Permission(_) => 403,
        ZzylError::NotFound(_) => 404,
        ZzylError::AlreadyExists(_) => 409,
        ZzylError::TooManyRequests(_) => 429,
        ZzylError::ServiceUnavailable(_) => 503,
        ZzylError::HttpStatus(code) => code as int,
        _ => 500,
    }
}

/// The text of an error: its kind, then what it carries.
pub open spec fn message_of(e: ZzylError) -> Seq<char> {
    match e {
        ZzylError::Database(m) => "数据库错误: "@ + m@,
        ZzylError::Authentication(m) => "认证错误: "@ + m@,
        ZzylError::Authorization(m) => "授权错误: "@ + m@,
        ZzylError::InvalidParameter(m) => "参数错误: "@ + m@,
        ZzylError::Business(m) => "业务错误: "@ + m@,
        ZzylError::System(m) => "系统错误: "@ + m@,
        ZzylError::FileOperation(m) => "文件操作错误: "@ + m@,
        ZzylError::Network(m) => "网络错误: "@ + m@,
        ZzylError::Configuration(m) => "配置错误: "@ + m@,
        ZzylError::Serialization(m) => "序列化错误: "@ + m@,
        ZzylError::Captcha(m) => "验证码错误: "@ + m@,
        ZzylError::Token(m) => "令牌错误: "@ + m@,
        ZzylError::User(m) => "用户错误: "@ + m@,
        ZzylError::Permission(m) => "权限错误: "@ + m@,
        ZzylError::NotFound(m) => "数据不存在: "@ + m@,
        ZzylError::AlreadyExists(m) => "数据已存在: "@ + m@,
        ZzylError::Forbidden(m) => "操作被禁止: "@ + m@,
        ZzylError::TooManyRequests(m) => "请求过于频繁: "@ + m@,
        ZzylError::ServiceUnavailable(m) => "服务不可用: "@ + m@,
        ZzylError::Io(m) => "IO错误: "@ + m@,
        ZzylError::Json(m) => "JSON错误: "@ + m@,
        ZzylError::Sql(m) => "SQL错误: "@ + m@,
        ZzylError::Redis(m) => "Redis错误: "@ + m@,
        ZzylError::Jwt(m) => "JWT错误: "@ + m@,
        ZzylError::HttpStatus(code) => "HTTP错误代: "@ + decimal(code as nat),
    }
}

impl ZzylError {
    /// The HTTP status to answer with.
    pub fn status_code(&self) -> (r: u16)
        ensures
            r as int == status_of(*self),
    {
        match self {
            ZzylError::InvalidParameter(_) => 400,
            ZzylError::Authentication(_) => 401,
            ZzylError::Authorization(_) => 403,
            ZzylError::Permission(_) => 403,
            ZzylError::NotFound(_) => 404,
            ZzylError::AlreadyExists(_) => 409,
            ZzylError::TooManyRequests(_) => 429,
            ZzylError::ServiceUnavailable(_) => 503,
            ZzylError::HttpStatus(code) => *code,
            _ => 500,
        }
    }

    /// The code of the response envelope: the HTTP status.
    pub fn error_code(&self) -> (r: i32)
        ensures
            r as int == status_of(*self),
    {
        self.status_code() as i32
    }

    /// The text of the error.
    pub fn error_message(&self) -> (r: String)
        ensures
            r@ == message_of(*self),
    {
        match self {
            ZzylError::Database(m) => {
                let mut s = "数据库错误: ".to_owned();
                push_str(&mut s, m.as_str());
                s
            },
            ZzylError::Authentication(m) => {
                let mut s = "认证错误: ".to_owned();
                push_str(&mut s, m.as_str());
                s
            },
            ZzylError::Authorization(m) => {
                let mut s = "授权错误: ".to_owned();
                push_str(&mut s, m.as_str());
                s
            },
            ZzylError::InvalidParameter(m) => {
                let mut s = "参数错误: ".to_owned();
                push_str(&mut s, m.as_str());
                s
            },
            ZzylError::Business(m) => {
                let mut s = "业务错误: ".to_owned();
                push_str(&mut s, m.as_str());
                s
            },
            ZzylError::System(m) => {
                let mut s = "系统错误: ".to_owned();
                push_str(&mut s, m.as_str());
                s
            },
            ZzylError::FileOperation(m) => {
                let mut s = "文件操作错误: ".to_owned();
                push_str(&mut s, m.as_str());
                s
            },
            ZzylError::Network(m) => {
                let mut s = "网络错误: ".to_owned();
                push_str(&mut s, m.as_str());
                s
            },
            ZzylError::Configuration(m) => {
                let mut s = "配置错误: ".to_owned();
                push_str(&mut s, m.as_str());
                s
            },
            ZzylError::Serialization(m) => {
                let mut s = "序列化错误: ".to_owned();
                push_str(&mut s, m.as_str());
                s
            },
            ZzylError::Captcha(m) => {
                let mut s = "验证码错误: ".to_owned();
                push_str(&mut s, m.as_str());
                s
            },
            ZzylError::Token(m) => {
                let mut s = "令牌错误: ".to_owned();
                push_str(&mut s, m.as_str());
                s
            },
            ZzylError::User(m) => {
                let mut s = "用户错误: ".to_owned();
                push_str(&mut s, m.as_str());
                s
            },
            ZzylError::Permission(m) => {
                let mut s = "权限错误: ".to_owned();
                push_str(&mut s, m.as_str());
                s
            },
            ZzylError::NotFound(m) => {
                let mut s = "数据不存在: ".to_owned();
                push_str(&mut s, m.as_str());
                s
            },
            ZzylError::AlreadyExists(m) => {
                let mut s = "数据已存在: ".to_owned();
                push_str(&mut s, m.as_str());
                s
            },
            ZzylError::Forbidden(m) => {
                let mut s = "操作被禁止: ".to_owned();
                push_str(&mut s, m.as_str());
                s
            },
            ZzylError::TooManyRequests(m) => {
                let mut s = "请求过于频繁: ".to_owned();
                push_str(&mut s, m.as_str());
                s
            },
            ZzylError::ServiceUnavailable(m) => {
                let mut s = "服务不可用: ".to_owned();
                push_str(&mut s, m.as_str());
                s
            },
            ZzylError::Io(m) => {
                let mut s = "IO错误: ".to_owned();
                push_str(&mut s, m.as_str());
                s
            },
            ZzylError::Json(m) => {
                let mut s = "JSON错误: ".to_owned();
                push_str(&mut s, m.as_str());
                s
            },
            ZzylError::Sql(m) => {
                let mut s = "SQL错误: ".to_owned();
                push_str(&mut s, m.as_str());
                s
            },
            ZzylError::Redis(m) => {
                let mut s = "Redis错误: ".to_owned();
                push_str(&mut s, m.as_str());
                s
            },
            ZzylError::Jwt(m) => {
                let mut s = "JWT错误: ".to_owned();
                push_str(&mut s, m.as_str());
                s
            },
            ZzylError::HttpStatus(code) => {
                let mut s = "HTTP错误代: ".to_owned();
                push_decimal(&mut s, *code as u64);
                s
            },
        }
    }
}

impl<T> AjaxResult<T> {
    /// The envelope of an error: its code and its text, no data.
    pub fn from_error(error: ZzylError) -> (r: AjaxResult<T>)
        ensures
            r.code as int == status_of(error),
            r.msg@ == message_of(error),
            r.data is None,
    {
        let code = error.error_code();
        let msg = error.error_message();
        AjaxResult { code, msg, data: None }
    }
}

impl From<BusinessException> for ZzylError {
    fn from(exception: BusinessException) -> ZzylError {
        ZzylError::Business(exception.message)
    }
}

impl vstd::std_specs::convert::FromSpecImpl<BusinessException> for ZzylError {
    open spec fn obeys_from_spec() -> bool {
        true
    }

    open spec fn from_spec(exception: BusinessException) -> ZzylError {
        ZzylError::Business(exception.message)
    }
}

impl From<ParameterException> for ZzylError {
    fn from(exception: ParameterException) -> ZzylError {
        ZzylError::InvalidParameter(exception.message)
    }
}

impl vstd::std_specs::convert::FromSpecImpl<ParameterException> for ZzylError {
    open spec fn obeys_from_spec() -> bool {
        true
    }

    open spec fn from_spec(exception: ParameterException) -> ZzylError {
        ZzylError::InvalidParameter(exception.message)
    }
}

impl From<AuthenticationException> for ZzylError {
    fn from(exception: AuthenticationException) -> ZzylError {
        ZzylError::Authentication(exception.message)
    }
}

impl vstd::std_specs::convert::FromSpecImpl<AuthenticationException> for ZzylError {
    open spec fn obeys_from_spec() -> bool {
        true
    }

    open spec fn from_spec(exception: AuthenticationException) -> ZzylError {
        ZzylError::Authentication(exception.message)
    }
}

impl From<AuthorizationException> for ZzylError {
    fn from(exception: AuthorizationException) -> ZzylError {
        ZzylError::Authorization(exception.message)
    }
}

impl vstd::std_specs::convert::FromSpecImpl<AuthorizationException> for ZzylError {
    open spec fn obeys_from_spec() -> bool {
        true
    }

    open spec fn from_spec(exception: AuthorizationException) -> ZzylError {
        ZzylError::Authorization(exception.message)
    }
}

impl From<DataNotFoundException> for ZzylError {
    fn from(exception: DataNotFoundException) -> ZzylError {
        ZzylError::NotFound(exception.message)
    }
}

impl vstd::std_specs::convert::FromSpecImpl<DataNotFoundException> for ZzylError {
    open spec fn obeys_from_spec() -> bool {
        true
    }

    open spec fn from_spec(exception: DataNotFoundException) -> ZzylError {
        ZzylError::NotFound(exception.message)
    }
}

impl From<DataAlreadyExistsException> for ZzylError {
    fn from(exception: DataAlreadyExistsException) -> ZzylError {
        ZzylError::AlreadyExists(exception.message)
    }
}

impl vstd::std_specs::convert::FromSpecImpl<DataAlreadyExistsException> for ZzylError {
    open spec fn obeys_from_spec() -> bool {
        true
    }

    open spec fn from_spec(exception: DataAlreadyExistsException) -> ZzylError {
        ZzylError::AlreadyExists(exception.message)
    }
}

impl From<SystemException> for ZzylError {
    fn from(exception: SystemException) -> ZzylError {
        ZzylError::System(exception.message)
    }
}

impl vstd::std_specs::convert::FromSpecImpl<SystemException> for ZzylError {
    open spec fn obeys_from_spec() -> bool {
        true
    }

    open spec fn from_spec(exception: SystemException) -> ZzylError {
        ZzylError::System(exception.message)
    }
}

impl From<FileOperationException> for ZzylError {
    fn from(exception: FileOperationException) -> ZzylError {
        ZzylError::FileOperation(exception.message)
    }
}

impl vstd::std_specs::convert::FromSpecImpl<FileOperationException> for ZzylError {
    open spec fn obeys_from_spec() -> bool {
        true
    }

    open spec fn from_spec(exception: FileOperationException) -> ZzylError {
        ZzylError::FileOperation(exception.message)
    }
}

impl From<CaptchaException> for ZzylError {
    fn from(exception: CaptchaException) -> ZzylError {
        ZzylError::Captcha(exception.message)
    }
}

impl vstd::std_specs::convert::FromSpecImpl<CaptchaException> for ZzylError {
    open spec fn obeys_from_spec() -> bool {
        true
    }

    open spec fn from_spec(exception: CaptchaException) -> ZzylError {
        ZzylError::Captcha(exception.message)
    }
}

impl From<TokenException> for ZzylError {
    fn from(exception: TokenException) -> ZzylError {
        ZzylError::Token(exception.message)
    }
}

impl vstd::std_specs::convert::FromSpecImpl<TokenException> for ZzylError {
    open spec fn obeys_from_spec() -> bool {
        true
    }

    open spec fn from_spec(exception: TokenException) -> ZzylError {
        ZzylError::Token(exception.message)
    }
}

impl From<UserException> for ZzylError {
    fn from(exception: UserException) -> ZzylError {
        ZzylError::User(exception.message)
    }
}

impl vstd::std_specs::convert::FromSpecImpl<UserException> for ZzylError {
    open spec fn obeys_from_spec() -> bool {
        true
    }

    open spec fn from_spec(exception: UserException) -> ZzylError {
        ZzylError::User(exception.message)
    }
}

impl From<PermissionException> for ZzylError {
    fn from(exception: PermissionException) -> ZzylError {
        ZzylError::Permission(exception.message)
    }
}

impl vstd::std_specs::convert::FromSpecImpl<PermissionException> for ZzylError {
    open spec fn obeys_from_spec() -> bool {
        true
    }

    open spec fn from_spec(exception: PermissionException) -> ZzylError {
        ZzylError::Permission(exception.message)
    }
}

impl From<ForbiddenException> for ZzylError {
    fn from(exception: ForbiddenException) -> ZzylError {
        ZzylError::Forbidden(exception.message)
    }
}

impl vstd::std_specs::convert::FromSpecImpl<ForbiddenException> for ZzylError {
    open spec fn obeys_from_spec() -> bool {
        true
    }

    open spec fn from_spec(exception: ForbiddenException) -> ZzylError {
        ZzylError::Forbidden(exception.message)
    }
}

impl From<TooManyRequestsException> for ZzylError {
    fn from(exception: TooManyRequestsException) -> ZzylError {
        ZzylError::TooManyRequests(exception.message)
    }
}

impl vstd::std_specs::convert::FromSpecImpl<TooManyRequestsException> for ZzylError {
    open spec fn obeys_from_spec() -> bool {
        true
    }

    open spec fn from_spec(exception: TooManyRequestsException) -> ZzylError {
        ZzylError::TooManyRequests(exception.message)
    }
}

impl From<ServiceUnavailableException> for ZzylError {
    fn from(exception: ServiceUnavailableException) -> ZzylError {
        ZzylError::ServiceUnavailable(exception.message)
    }
}

impl vstd::std_specs::convert::FromSpecImpl<ServiceUnavailableException> for ZzylError {
    open spec fn obeys_from_spec() -> bool {
        true
    }

    open spec fn from_spec(exception: ServiceUnavailableException) -> ZzylError {
        ZzylError::ServiceUnavailable(exception.message)
    }
}

} // verus!
