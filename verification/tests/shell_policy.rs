use pty_bridge::LaunchError;
use pty_bridge::PtySize;
use pty_bridge::initial_size;
use pty_bridge::shell_command;

#[test]
fn the_terminal_starts_at_eighty_by_twenty_four() {
    assert_eq!(
        initial_size(),
        PtySize { rows: 24, cols: 80, pixel_width: 0, pixel_height: 0 }
    );
}

#[test]
fn the_native_interpreter_gets_a_delimited_prompt() {
    let spec = shell_command(true, None, String::from("C:\\work\\project")).unwrap();
    assert_eq!(spec.program, "cmd");
    assert!(spec.args.is_empty());
    assert_eq!(spec.env, vec![(String::from("PROMPT"), String::from("$P$G "))]);
    assert_eq!(spec.cwd, "C:\\work\\project");
}

#[test]
fn the_posix_login_shell_runs_interactively_in_the_project() {
    let spec = shell_command(
        false,
        Some(String::from("/bin/zsh")),
        String::from("/home/user/project"),
    )
    .unwrap();
    assert_eq!(spec.program, "/bin/zsh");
    assert_eq!(spec.args, vec![String::from("-i")]);
    assert_eq!(
        spec.env,
        vec![(String::from("TERM"), String::from("xterm-256color"))]
    );
    assert_eq!(spec.cwd, "/home/user/project");
}

#[test]
fn a_host_without_a_login_shell_cannot_launch() {
    match shell_command(false, None, String::from("/home/user/project")) {
        Err(e) => assert_eq!(e, LaunchError::ShellUnset),
        Ok(_) => panic!("no command can be built without a shell"),
    }
}
