use chalk_parse::error::ExtractError;
use chalk_parse::sysroot::{compiler_args, resolve_sysroot};

#[test]
fn home_and_toolchain_resolve_to_a_joined_root() {
    let r = resolve_sysroot(
        Some("/home/user/.rustup".to_string()),
        Some("stable".to_string()),
        None,
    );
    assert_eq!(r, Ok("/home/user/.rustup/toolchains/stable".to_string()));
}

#[test]
fn home_and_toolchain_win_over_the_fallback() {
    let r = resolve_sysroot(
        Some("/h".to_string()),
        Some("tc".to_string()),
        Some("/explicit".to_string()),
    );
    assert_eq!(r, Ok("/h/toolchains/tc".to_string()));
}

#[test]
fn a_lone_home_falls_back_to_the_explicit_root() {
    let r = resolve_sysroot(Some("/h".to_string()), None, Some("/explicit".to_string()));
    assert_eq!(r, Ok("/explicit".to_string()));
}

#[test]
fn a_lone_toolchain_falls_back_to_the_explicit_root() {
    let r = resolve_sysroot(None, Some("tc".to_string()), Some("/explicit".to_string()));
    assert_eq!(r, Ok("/explicit".to_string()));
}

#[test]
fn nothing_resolvable_aborts_with_no_root() {
    let r = resolve_sysroot(None, None, None);
    assert_eq!(r, Err(ExtractError::ToolchainNotFound));
}

#[test]
fn the_command_line_names_exactly_one_input_file() {
    let args = compiler_args("/sys".to_string(), "input.rs".to_string());
    assert_eq!(
        args,
        vec![
            "rustc".to_string(),
            "--sysroot".to_string(),
            "/sys".to_string(),
            "input.rs".to_string(),
        ]
    );
}
