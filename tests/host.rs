use lune_std_process::host::{host_cwd, with_trailing_separator};

#[test]
fn separator_is_appended_when_missing() {
    assert_eq!(with_trailing_separator("/home/user".to_string(), '/'), "/home/user/");
    assert_eq!(with_trailing_separator(String::new(), '/'), "/");
    assert_eq!(with_trailing_separator("C:\\work".to_string(), '\\'), "C:\\work\\");
}

#[test]
fn separator_is_not_doubled() {
    assert_eq!(with_trailing_separator("/".to_string(), '/'), "/");
    assert_eq!(with_trailing_separator("/srv/".to_string(), '/'), "/srv/");
}

#[test]
fn host_cwd_ends_with_platform_separator() {
    let sep = std::path::MAIN_SEPARATOR;
    let shown = host_cwd("/var/tmp".to_string());
    assert!(shown.ends_with(sep));
    assert_eq!(shown, format!("/var/tmp{}", sep));
    let again = host_cwd(shown.clone());
    assert_eq!(again, shown);
}
