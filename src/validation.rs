//! Checks of submitted field values.
use vstd::prelude::*;

verus! {

/// Which check a value failed.
#[derive(Debug, Clone, Copy, PartialEq, Eq, Structural)]
pub enum InvalidField {
    UsernameLength,
    UsernameFormat,
    PasswordLength,
    EmailFormat,
    PhoneFormat,
    IdCardFormat,
    UrlFormat,
    IpFormat,
    PriceRange,
    PortRange,
    AgeRange,
    OrderNumRange,
    StatusValue,
    DelFlagValue,
    MenuTypeValue,
    DataScopeValue,
    BusinessTypeValue,
    OperStatusValue,
    LoginStatusValue,
    ElderStatusValue,
    GenderValue,
    PageNumRange,
    PageSizeRange,
}

pub open spec fn invalid_field_code(f: InvalidField) -> Seq<char> {
    match f {
        InvalidField::UsernameLength => "username_length"@,
        InvalidField::UsernameFormat => "username_format"@,
        InvalidField::PasswordLength => "password_length"@,
        InvalidField::EmailFormat => "email_format"@,
        InvalidField::PhoneFormat => "phone_format"@,
        InvalidField::IdCardFormat => "id_card_format"@,
        InvalidField::UrlFormat => "url_format"@,
        InvalidField::IpFormat => "ip_format"@,
        InvalidField::PriceRange => "price_range"@,
        InvalidField::PortRange => "port_range"@,
        InvalidField::AgeRange => "age_range"@,
        InvalidField::OrderNumRange => "order_num_range"@,
        InvalidField::StatusValue => "status_value"@,
        InvalidField::DelFlagValue => "del_flag_value"@,
        InvalidField::MenuTypeValue => "menu_type_value"@,
        InvalidField::DataScopeValue => "data_scope_value"@,
        InvalidField::BusinessTypeValue => "business_type_value"@,
        InvalidField::OperStatusValue => "oper_status_value"@,
        InvalidField::LoginStatusValue => "login_status_value"@,
        InvalidField::ElderStatusValue => "elder_status_value"@,
        InvalidField::GenderValue => "gender_value"@,
        InvalidField::PageNumRange => "page_num_range"@,
        InvalidField::PageSizeRange => "page_size_range"@,
    }
}

impl InvalidField {
    /// The code of the failed check.
    pub fn code(&self) -> (r: &'static str)
        ensures
            r@ == invalid_field_code(*self),
    {
        match self {
            InvalidField::UsernameLength => "username_length",
            InvalidField::UsernameFormat => "username_format",
            InvalidField::PasswordLength => "password_length",
            InvalidField::EmailFormat => "email_format",
            InvalidField::PhoneFormat => "phone_format",
            InvalidField::IdCardFormat => "id_card_format",
            InvalidField::UrlFormat => "url_format",
            InvalidField::IpFormat => "ip_format",
            InvalidField::PriceRange => "price_range",
            InvalidField::PortRange => "port_range",
            InvalidField::AgeRange => "age_range",
            InvalidField::OrderNumRange => "order_num_range",
            InvalidField::StatusValue => "status_value",
            InvalidField::DelFlagValue => "del_flag_value",
            InvalidField::MenuTypeValue => "menu_type_value",
            InvalidField::DataScopeValue => "data_scope_value",
            InvalidField::BusinessTypeValue => "business_type_value",
            InvalidField::OperStatusValue => "oper_status_value",
            InvalidField::LoginStatusValue => "login_status_value",
            InvalidField::ElderStatusValue => "elder_status_value",
            InvalidField::GenderValue => "gender_value",
            InvalidField::PageNumRange => "page_num_range",
            InvalidField::PageSizeRange => "page_size_range",
        }
    }
}

/// Whether `pattern` compiles as a regular expression and matches somewhere
/// in `text`.
pub uninterp spec fn regex_accepts(pattern: Seq<char>, text: Seq<char>) -> bool;

/// Relies on `regex::Regex::new` and `Regex::is_match`; a pattern that does
/// not compile matches nothing.
#[verifier::external_body]
fn regex_match(pattern: &str, text: &str) -> (r: bool)
    ensures
        r == regex_accepts(pattern@, text@),
{
    match regex::Regex::new(pattern) {
        Ok(re) => re.is_match(text),
        Err(_) => false,
    }
}

/// Whether `s` parses as an absolute URL.
pub uninterp spec fn url_parses(s: Seq<char>) -> bool;

/// Relies on `url::Url::parse`, which succeeds exactly on absolute URLs.
#[verifier::external_body]
pub(crate) fn parse_url_ok(s: &str) -> (r: bool)
    ensures
        r == url_parses(s@),
{
    url::Url::parse(s).is_ok()
}

/// Whether Unicode counts `c` as alphabetic or numeric.
pub uninterp spec fn unicode_alphanumeric(c: char) -> bool;

/// Relies on `char::is_alphanumeric`: the Alphabetic or Numeric property.
#[verifier::external_body]
fn is_alphanumeric(c: char) -> (r: bool)
    ensures
        r == unicode_alphanumeric(c),
{
    c.is_alphanumeric()
}

pub open spec fn username_char(c: char) -> bool {
    unicode_alphanumeric(c) || c == '_'
}

pub open spec fn checked(ok: bool, f: InvalidField) -> Result<(), InvalidField> {
    if ok {
        Ok(())
    } else {
        Err(f)
    }
}

pub const EMAIL_PATTERN: &'static str = r"^[a-zA-Z0-9._%+-]+@[a-zA-Z0-9.-]+\.[a-zA-Z]{2,}$";

pub const PHONE_PATTERN: &'static str = r"^1[3-9]\d{9}$";

pub const ID_CARD_PATTERN: &'static str = r"^\d{17}[\dXx]$";

/// Checks of submitted field values.
pub struct ValidationUtils;

impl ValidationUtils {
    /// 2 to 20 bytes of letters, digits and underscores.
    pub fn validate_username(username: &str) -> (r: Result<(), InvalidField>)
        ensures
            r == (if username.len() < 2 || username.len() > 20 {
                Err(InvalidField::UsernameLength)
            } else if !(forall|i: int| 0 <= i < username@.len() ==> username_char(#[trigger] username@[i])) {
                Err(InvalidField::UsernameFormat)
            } else {
                Ok(())
            }),
    {
        let len = username.len();
        if len < 2 || len > 20 {
            return Err(InvalidField::UsernameLength);
        }
        let n = username.unicode_len();
        let mut i: usize = 0;
        while i < n
            invariant
                n == username@.len(),
                2 <= username.len() <= 20,
                i <= n,
                forall|j: int| 0 <= j < i ==> username_char(#[trigger] username@[j]),
            decreases n - i,
        {
            let c = username.get_char(i);
            if !(is_alphanumeric(c) || c == '_') {
                assert(!username_char(username@[i as int]));
                return Err(InvalidField::UsernameFormat);
            }
            i = i + 1;
        }
        Ok(())
    }

    /// 5 to 20 bytes.
    pub fn validate_password(password: &str) -> (r: Result<(), InvalidField>)
        ensures
            r == checked(5 <= password.len() <= 20, InvalidField::PasswordLength),
    {
        let len = password.len();
        if len < 5 || len > 20 {
            return Err(InvalidField::PasswordLength);
        }
        Ok(())
    }

    pub fn validate_email(email: &str) -> (r: Result<(), InvalidField>)
        ensures
            r == checked(regex_accepts(EMAIL_PATTERN@, email@), InvalidField::EmailFormat),
    {
        if !regex_match(EMAIL_PATTERN, email) {
            return Err(InvalidField::EmailFormat);
        }
        Ok(())
    }

    /// A mainland mobile number: 1, then 3 to 9, then nine digits.
    pub fn validate_phone(phone: &str) -> (r: Result<(), InvalidField>)
        ensures
            r == checked(regex_accepts(PHONE_PATTERN@, phone@), InvalidField::PhoneFormat),
    {
        if !regex_match(PHONE_PATTERN, phone) {
            return Err(InvalidField::PhoneFormat);
        }
        Ok(())
    }

    /// Seventeen digits, then a digit or X.
    pub fn validate_id_card(id_card: &str) -> (r: Result<(), InvalidField>)
        ensures
            r == checked(regex_accepts(ID_CARD_PATTERN@, id_card@), InvalidField::IdCardFormat),
    {
        if !regex_match(ID_CARD_PATTERN, id_card) {
            return Err(InvalidField::IdCardFormat);
        }
        Ok(())
    }

    pub fn validate_url(url: &str) -> (r: Result<(), InvalidField>)
        ensures
            r == checked(url_parses(url@), InvalidField::UrlFormat),
    {
        if !parse_url_ok(url) {
            return Err(InvalidField::UrlFormat);
        }
        Ok(())
    }

    pub fn validate_port(port: u16) -> (r: Result<(), InvalidField>)
        ensures
            r == checked(port != 0, InvalidField::PortRange),
    {
        if port == 0 {
            return Err(InvalidField::PortRange);
        }
        Ok(())
    }

    pub fn validate_age(age: i32) -> (r: Result<(), InvalidField>)
        ensures
            r == checked(0 <= age <= 150, InvalidField::AgeRange),
    {
        if age < 0 || age > 150 {
            return Err(InvalidField::AgeRange);
        }
        Ok(())
    }

    pub fn validate_order_num(order_num: i32) -> (r: Result<(), InvalidField>)
        ensures
            r == checked(order_num >= 0, InvalidField::OrderNumRange),
    {
        if order_num < 0 {
            return Err(InvalidField::OrderNumRange);
        }
        Ok(())
    }

    pub fn validate_status(status: i32) -> (r: Result<(), InvalidField>)
        ensures
            r == checked(status == 0 || status == 1, InvalidField::StatusValue),
    {
        if status != 0 && status != 1 {
            return Err(InvalidField::StatusValue);
        }
        Ok(())
    }

    pub fn validate_del_flag(del_flag: i32) -> (r: Result<(), InvalidField>)
        ensures
            r == checked(del_flag == 0 || del_flag == 2, InvalidField::DelFlagValue),
    {
        if del_flag != 0 && del_flag != 2 {
            return Err(InvalidField::DelFlagValue);
        }
        Ok(())
    }

    /// `M`, `C` or `F`.
    pub fn validate_menu_type(menu_type: &str) -> (r: Result<(), InvalidField>)
        ensures
            r == checked(menu_type@ == "M"@ || menu_type@ == "C"@ || menu_type@ == "F"@, InvalidField::MenuTypeValue),
    {
        let t = menu_type.to_owned();
        if t == "M".to_owned() || t == "C".to_owned() || t == "F".to_owned() {
            Ok(())
        } else {
            Err(InvalidField::MenuTypeValue)
        }
    }

    pub fn validate_data_scope(data_scope: i32) -> (r: Result<(), InvalidField>)
        ensures
            r == checked(1 <= data_scope <= 5, InvalidField::DataScopeValue),
    {
        if data_scope < 1 || data_scope > 5 {
            return Err(InvalidField::DataScopeValue);
        }
        Ok(())
    }

    pub fn validate_business_type(business_type: i32) -> (r: Result<(), InvalidField>)
        ensures
            r == checked(0 <= business_type <= 9, InvalidField::BusinessTypeValue),
    {
        if business_type < 0 || business_type > 9 {
            return Err(InvalidField::BusinessTypeValue);
        }
        Ok(())
    }

    pub fn validate_oper_status(oper_status: i32) -> (r: Result<(), InvalidField>)
        ensures
            r == checked(oper_status == 0 || oper_status == 1, InvalidField::OperStatusValue),
    {
        if oper_status != 0 && oper_status != 1 {
            return Err(InvalidField::OperStatusValue);
        }
        Ok(())
    }

    pub fn validate_login_status(login_status: i32) -> (r: Result<(), InvalidField>)
        ensures
            r == checked(login_status == 0 || login_status == 1, InvalidField::LoginStatusValue),
    {
        if login_status != 0 && login_status != 1 {
            return Err(InvalidField::LoginStatusValue);
        }
        Ok(())
    }

    pub fn validate_elder_status(elder_status: i32) -> (r: Result<(), InvalidField>)
        ensures
            r == checked(0 <= elder_status <= 5, InvalidField::ElderStatusValue),
    {
        if elder_status < 0 || elder_status > 5 {
            return Err(InvalidField::ElderStatusValue);
        }
        Ok(())
    }

    pub fn validate_gender(gender: i32) -> (r: Result<(), InvalidField>)
        ensures
            r == checked(gender == 0 || gender == 1, InvalidField::GenderValue),
    {
        if gender != 0 && gender != 1 {
            return Err(InvalidField::GenderValue);
        }
        Ok(())
    }

    /// A page number from 1, a page size from 1 to 500.
    pub fn validate_page_params(page_num: i32, page_size: i32) -> (r: Result<(), InvalidField>)
        ensures
            r == (if page_num < 1 {
                Err(InvalidField::PageNumRange)
            } else if page_size < 1 || page_size > 500 {
                Err(InvalidField::PageSizeRange)
            } else {
                Ok(())
            }),
    {
        if page_num < 1 {
            return Err(InvalidField::PageNumRange);
        }
        if page_size < 1 || page_size > 500 {
            return Err(InvalidField::PageSizeRange);
        }
        Ok(())
    }
}

} // verus!
