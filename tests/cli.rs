use rcli::genpass::{gen_password, process_genpass};
use rcli::{
    check_dir_path, check_existing_name, check_input_name, parse_format, parse_text_sign_format, verify_file,
    verify_input_file, verify_path, FormatError, OutputFormat, PassError, TextSignFormat,
};

#[test]
fn test_verify_input() {
    assert_eq!(verify_file("-"), Ok("-".into()));
    assert_eq!(verify_file("*"), Err("文件不存在!"));
    // an existing file; the package manifest is not always beside the tests
    assert_eq!(verify_file("tests/cli.rs"), Ok("tests/cli.rs".into()));
    assert_eq!(verify_file("no-exist"), Err("文件不存在!"));
}

#[test]
fn input_file_must_exist() {
    assert_eq!(verify_input_file("tests/cli.rs"), Ok("tests/cli.rs".to_string()));
    assert_eq!(verify_input_file("-"), Err("文件不存在!"));
    assert_eq!(check_input_name("-", false), Ok("-".to_string()));
    assert_eq!(check_input_name("--", false), Err("文件不存在!"));
    assert_eq!(check_input_name("a.csv", true), Ok("a.csv".to_string()));
    assert_eq!(check_existing_name("-", false), Err("文件不存在!"));
    assert_eq!(check_existing_name("a.csv", true), Ok("a.csv".to_string()));
}

#[test]
fn dir_path_must_be_directory() {
    assert_eq!(verify_path("src"), Ok("src".to_string()));
    assert_eq!(verify_path("tests/cli.rs"), Err("Path does not exist or is not a directory"));
    assert_eq!(verify_path("no-exist"), Err("Path does not exist or is not a directory"));
    assert_eq!(check_dir_path("x", true), Ok("x".to_string()));
}

#[test]
fn output_format_names() {
    assert_eq!(parse_format("json"), Ok(OutputFormat::Json));
    assert_eq!(parse_format("yaml"), Ok(OutputFormat::Yaml));
    assert_eq!(parse_format("toml"), Err(FormatError::Unsupported("toml".to_string())));
    assert_eq!("yaml".parse::<OutputFormat>(), Ok(OutputFormat::Yaml));
    let name: &str = OutputFormat::Json.into();
    assert_eq!(name, "json");
    assert_eq!(OutputFormat::Yaml.as_str(), "yaml");
}

#[test]
fn text_sign_format_names() {
    assert_eq!(parse_text_sign_format("blake3"), Ok(TextSignFormat::Blake3));
    assert_eq!(parse_text_sign_format("ed25519"), Ok(TextSignFormat::Ed25519));
    assert_eq!(
        parse_text_sign_format("rsa"),
        Err(FormatError::Unsupported("rsa".to_string()))
    );
}

#[test]
fn password_length_and_classes() {
    let p = process_genpass(16, true, true, true, true).unwrap();
    assert_eq!(p.chars().count(), 16);
    let digits = process_genpass(40, false, false, true, false).unwrap();
    assert_eq!(digits.len(), 40);
    assert!(digits.chars().all(|c| c.is_ascii_digit()));
    let symbols = gen_password(30, false, false, false, true).unwrap();
    assert!(symbols.iter().all(|b| b"!@#$%^&*_".contains(b)));
    let upper = gen_password(30, true, false, false, false).unwrap();
    assert!(upper.iter().all(|b| b.is_ascii_uppercase()));
    assert_eq!(process_genpass(0, true, false, false, false), Ok(String::new()));
}

#[test]
fn password_needs_a_class() {
    assert_eq!(process_genpass(8, false, false, false, false), Err(PassError::NoCharacterClass));
}
