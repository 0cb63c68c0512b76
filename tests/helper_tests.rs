use std::collections::HashMap;
use zzyl_auth::annotation::{Excel, Log, PreAuthorize, RepeatSubmit};
use zzyl_auth::excel::ExcelUtils;
use zzyl_auth::file::FileUtils;
use zzyl_auth::http::HttpResponse;
use zzyl_auth::security::SecurityUtils;
use zzyl_auth::validation::{InvalidField, ValidationUtils};

#[test]
fn username_rules() {
    assert_eq!(ValidationUtils::validate_username("alice_01"), Ok(()));
    assert_eq!(ValidationUtils::validate_username("a"), Err(InvalidField::UsernameLength));
    assert_eq!(ValidationUtils::validate_username("abcdefghijklmnopqrstu"), Err(InvalidField::UsernameLength));
    assert_eq!(ValidationUtils::validate_username("bad name"), Err(InvalidField::UsernameFormat));
    assert_eq!(ValidationUtils::validate_username("张三"), Ok(()));
    assert_eq!(InvalidField::UsernameFormat.code(), "username_format");
}

#[test]
fn value_rules() {
    assert_eq!(ValidationUtils::validate_password("12345"), Ok(()));
    assert_eq!(ValidationUtils::validate_password("1234"), Err(InvalidField::PasswordLength));
    assert_eq!(ValidationUtils::validate_email("a.b@c.io"), Ok(()));
    assert_eq!(ValidationUtils::validate_email("nope"), Err(InvalidField::EmailFormat));
    assert_eq!(ValidationUtils::validate_phone("13812345678"), Ok(()));
    assert_eq!(ValidationUtils::validate_phone("12812345678"), Err(InvalidField::PhoneFormat));
    assert_eq!(ValidationUtils::validate_id_card("11010519491231002X"), Ok(()));
    assert_eq!(ValidationUtils::validate_id_card("1101051949123100"), Err(InvalidField::IdCardFormat));
    assert_eq!(ValidationUtils::validate_url("https://example.com/a"), Ok(()));
    assert_eq!(ValidationUtils::validate_url("not a url"), Err(InvalidField::UrlFormat));
    assert_eq!(ValidationUtils::validate_port(0), Err(InvalidField::PortRange));
    assert_eq!(ValidationUtils::validate_port(80), Ok(()));
    assert_eq!(ValidationUtils::validate_age(151), Err(InvalidField::AgeRange));
    assert_eq!(ValidationUtils::validate_age(150), Ok(()));
    assert_eq!(ValidationUtils::validate_order_num(-1), Err(InvalidField::OrderNumRange));
    assert_eq!(ValidationUtils::validate_status(2), Err(InvalidField::StatusValue));
    assert_eq!(ValidationUtils::validate_del_flag(2), Ok(()));
    assert_eq!(ValidationUtils::validate_del_flag(1), Err(InvalidField::DelFlagValue));
    assert_eq!(ValidationUtils::validate_menu_type("C"), Ok(()));
    assert_eq!(ValidationUtils::validate_menu_type("X"), Err(InvalidField::MenuTypeValue));
    assert_eq!(ValidationUtils::validate_data_scope(6), Err(InvalidField::DataScopeValue));
    assert_eq!(ValidationUtils::validate_business_type(9), Ok(()));
    assert_eq!(ValidationUtils::validate_oper_status(1), Ok(()));
    assert_eq!(ValidationUtils::validate_login_status(3), Err(InvalidField::LoginStatusValue));
    assert_eq!(ValidationUtils::validate_elder_status(5), Ok(()));
    assert_eq!(ValidationUtils::validate_gender(2), Err(InvalidField::GenderValue));
    assert_eq!(ValidationUtils::validate_page_params(0, 10), Err(InvalidField::PageNumRange));
    assert_eq!(ValidationUtils::validate_page_params(1, 501), Err(InvalidField::PageSizeRange));
    assert_eq!(ValidationUtils::validate_page_params(1, 500), Ok(()));
}

#[test]
fn digests() {
    assert_eq!(SecurityUtils::md5_hash("abc"), "900150983cd24fb0d6963f7d28e17f72");
    assert_eq!(
        SecurityUtils::sha256_hash("abc"),
        "ba7816bf8f01cfea414140de5dae2223b00361a396177a9cb410ff61f20015ad"
    );
}

#[test]
fn cells_and_rows() {
    assert_eq!(ExcelUtils::format_cell_value("  x y \t"), "x y");
    assert!(ExcelUtils::is_cell_empty(" \t\n"));
    assert!(!ExcelUtils::is_cell_empty(" a "));
    let data = vec![
        vec!["name".to_string(), " age ".to_string()],
        vec!["  ".to_string(), "".to_string()],
        vec![" bob".to_string(), "7 ".to_string()],
    ];
    assert!(ExcelUtils::validate_data_rows(&data, 1, 2));
    assert!(!ExcelUtils::validate_data_rows(&data, 3, 9));
    assert!(!ExcelUtils::validate_data_rows(&[], 1, 9));
    assert_eq!(
        ExcelUtils::clean_excel_data(&data),
        vec![vec!["name".to_string(), "age".to_string()], vec!["bob".to_string(), "7".to_string()]]
    );
    assert!(ExcelUtils::clean_excel_data(&[]).is_empty());
    let headers = vec!["name".to_string(), " age ".to_string()];
    assert!(ExcelUtils::validate_excel_format(&data, &headers));
    assert!(!ExcelUtils::validate_excel_format(&data, &["name".to_string(), "age".to_string()]));
    assert!(!ExcelUtils::validate_excel_format(&data, &["name".to_string()]));
    assert!(!ExcelUtils::validate_excel_format(&[], &[]));
}

#[test]
fn paths() {
    assert_eq!(FileUtils::get_extension("a/b/Photo.JPG"), Some("jpg".to_string()));
    assert_eq!(FileUtils::get_extension("noext"), None);
    assert_eq!(FileUtils::get_filename_without_extension("a/b/c.tar.gz"), Some("c.tar".to_string()));
    assert_eq!(FileUtils::get_filename("a/b/c.txt"), Some("c.txt".to_string()));
    assert_eq!(FileUtils::get_filename("a/.."), None);
    assert!(!FileUtils::is_safe_path("a/../b"));
    assert!(!FileUtils::is_safe_path("./a"));
    assert!(FileUtils::is_safe_path("a/b.txt"));
    assert!(FileUtils::is_allowed_extension("x.PNG", &["png", "jpg"]));
    assert!(!FileUtils::is_allowed_extension("x.gif", &["png", "jpg"]));
    assert!(!FileUtils::is_allowed_extension("x", &["png"]));
}

#[test]
fn annotation_defaults() {
    let e = Excel::default();
    assert_eq!(e.is_export, Some(true));
    assert!(e.name.is_none());
    let r = RepeatSubmit::default();
    assert_eq!(r.interval, Some(5000));
    assert_eq!(r.message.as_deref(), Some("不允许重复提交，请稍候再试"));
    let l = Log::default();
    assert_eq!((l.is_save_request_data, l.is_save_response_data), (Some(true), Some(true)));
    assert_eq!(PreAuthorize::default().logical.as_deref(), Some("AND"));
}

#[test]
fn response_status_classes() {
    let ok = HttpResponse::new(204, HashMap::new(), ());
    assert!(ok.is_success() && !ok.is_client_error() && !ok.is_server_error());
    let nf = HttpResponse::new(404, HashMap::new(), ());
    assert!(nf.is_client_error() && !nf.is_success());
    let se = HttpResponse::new(503, HashMap::new(), ());
    assert!(se.is_server_error());
    assert!(!HttpResponse::new(600, HashMap::new(), ()).is_server_error());
}
