use sd_backend::command::{clean_find_output, find_latest_args, stable_diffusion_command};

#[test]
fn venv_activation_takes_precedence() {
    let r = stable_diffusion_command(
        "/home/u/sd",
        "python scripts/txt2img.py",
        true,
        true,
        "linux",
    );
    assert_eq!(r, "source venv/bin/activate && python scripts/txt2img.py");
}

#[test]
fn direnv_when_no_venv() {
    let r = stable_diffusion_command("/home/u/sd", "make run", false, true, "linux");
    assert_eq!(r, "direnv exec /home/u/sd make run");
}

#[test]
fn bare_command_on_windows() {
    let r = stable_diffusion_command("C:/sd", "run.bat", false, false, "windows");
    assert_eq!(r, "cmd /C run.bat");
}

#[test]
fn bare_command_elsewhere() {
    let r = stable_diffusion_command("/home/u/sd", "ls", false, false, "macos");
    assert_eq!(r, "sh -c ls");
}

#[test]
fn find_args_shape() {
    let args = find_latest_args("/abs/out", "2130");
    let expected = vec![
        "/abs/out", "-name", "*.png", "-depth", "1", "-type", "f", "-ctime", "-2130s",
    ];
    assert_eq!(args, expected);
}

#[test]
fn find_output_is_cleaned() {
    let r = clean_find_output("/abs/out/grid-0034.png\n", "/abs/out");
    assert_eq!(r, "grid-0034.png");
}

#[test]
fn find_output_empty_when_pipeline_found_nothing() {
    assert_eq!(clean_find_output("", "/abs/out"), "");
}
