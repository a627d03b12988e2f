use lazy_learn::{backend_command, LaunchCommand};

#[test]
fn backend_command_is_the_fixed_command_line() {
    let command: LaunchCommand = backend_command();
    assert_eq!(command.program, "python");
    assert_eq!(
        command.args,
        vec!["-m", "uvicorn", "app.main:app", "--port", "8000", "--host", "127.0.0.1"]
    );
    assert_eq!(command.working_dir, "../backend");
}

#[test]
fn backend_command_listens_on_loopback_port_8000() {
    let command = backend_command();
    let port = command.args.iter().position(|a| a == "--port").unwrap();
    assert_eq!(command.args[port + 1], "8000");
    let host = command.args.iter().position(|a| a == "--host").unwrap();
    assert_eq!(command.args[host + 1], "127.0.0.1");
}
