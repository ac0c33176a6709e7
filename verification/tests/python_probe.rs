use sd_backend::python::{get_python_binary_and_version, get_python_path, path_lookup_command};

#[test]
fn python_answered() {
    let r = get_python_binary_and_version(Some("Python 3.10.8\n".to_string()), None);
    assert_eq!(r, "python--Python 3.10.8");
}

#[test]
fn python_answer_shadows_python3() {
    let r = get_python_binary_and_version(
        Some("Python 2.7.18\n".to_string()),
        Some("Python 3.10.8\n".to_string()),
    );
    assert_eq!(r, "python--Python 2.7.18");
}

#[test]
fn only_python3_answered() {
    let r = get_python_binary_and_version(None, Some("Python 3.11.2\n".to_string()));
    assert_eq!(r, "python3--Python 3.11.2");
}

#[test]
fn neither_answered() {
    let r = get_python_binary_and_version(None, None);
    assert_eq!(r, "NOT_FOUND");
}

#[test]
fn lookup_command_per_platform() {
    assert_eq!(path_lookup_command("macos"), "which");
    assert_eq!(path_lookup_command("linux"), "which");
    assert_eq!(path_lookup_command("windows"), "where");
    assert_eq!(path_lookup_command("freebsd"), "");
}

#[test]
fn python_path_loses_trailing_newline() {
    let r = get_python_path("/usr/bin/python3\n".to_string());
    assert_eq!(r, "/usr/bin/python3");
}
