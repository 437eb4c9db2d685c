use exe_deploy::DeployError;
use exe_deploy::executable::{DeployAction, Executable, FULL_ACCESS_MODE};

fn svc() -> Executable {
    Executable::new(
        String::from("svc"),
        String::from("/srv/app"),
        String::from("/local/bin"),
    )
    .unwrap()
}

#[test]
fn new_keeps_fields() {
    let e = svc();
    assert_eq!(e.name, "svc");
    assert_eq!(e.remote_path, "/srv/app");
    assert_eq!(e.local_path, "/local/bin");
}

#[test]
fn new_rejects_empty_name() {
    let r = Executable::new(String::new(), String::from("/srv"), String::from("/l"));
    assert_eq!(r.unwrap_err(), DeployError::ConfigurationError);
}

#[test]
fn new_rejects_empty_remote_path() {
    let r = Executable::new(String::from("svc"), String::new(), String::from("/l"));
    assert_eq!(r.unwrap_err(), DeployError::ConfigurationError);
}

#[test]
fn new_rejects_empty_local_path() {
    let r = Executable::new(String::from("svc"), String::from("/srv"), String::new());
    assert_eq!(r.unwrap_err(), DeployError::ConfigurationError);
}

#[test]
fn probe_command_exact() {
    assert_eq!(
        svc().process_count_command(),
        "ps -ef | grep svc | grep -v grep | wc -l"
    );
}

#[test]
fn running_iff_trimmed_output_is_one() {
    let e = svc();
    assert!(e.check_remote_server_process_is_running("1"));
    assert!(e.check_remote_server_process_is_running("1\n"));
    assert!(e.check_remote_server_process_is_running(" 1 \t\r\n"));
    assert!(!e.check_remote_server_process_is_running("0"));
    assert!(!e.check_remote_server_process_is_running("2"));
    assert!(!e.check_remote_server_process_is_running("11"));
    assert!(!e.check_remote_server_process_is_running(""));
    assert!(!e.check_remote_server_process_is_running(" \n\t "));
    assert!(!e.check_remote_server_process_is_running("1 1"));
}

#[test]
fn kill_issued_only_when_running() {
    let e = svc();
    assert_eq!(
        e.killall_remote_server_process("1\n").unwrap(),
        "killall -9 svc"
    );
    assert!(e.killall_remote_server_process("0\n").is_none());
    assert!(e.killall_remote_server_process("2\n").is_none());
    assert!(e.killall_remote_server_process("").is_none());
}

#[test]
fn swap_commands_exact() {
    let (remove, rename) = svc().delete_remote_server_file_and_rename(false, false).unwrap();
    assert_eq!(remove, "rm -rf /srv/app/svc");
    assert_eq!(rename, "mv /srv/app/svc.temp /srv/app/svc");
}

#[test]
fn swap_refuses_directories() {
    let e = svc();
    assert_eq!(
        e.delete_remote_server_file_and_rename(true, false).unwrap_err(),
        DeployError::TransferError
    );
    assert_eq!(
        e.delete_remote_server_file_and_rename(false, true).unwrap_err(),
        DeployError::TransferError
    );
    assert_eq!(
        e.delete_remote_server_file_and_rename(true, true).unwrap_err(),
        DeployError::TransferError
    );
}

#[test]
fn start_command_exact() {
    assert_eq!(
        svc().start_remote_server_process(),
        "nohup /srv/app/svc > /srv/app/svc.log 2>&1 &"
    );
}

#[test]
fn log_commands_exact() {
    let e = svc();
    assert_eq!(e.show_remote_server_process_log(), "cat /srv/app/svc.log");
    assert_eq!(
        e.show_remote_server_process_log_last(10),
        "tail -n 10 /srv/app/svc.log"
    );
    assert_eq!(
        e.show_remote_server_process_log_last(0),
        "tail -n 0 /srv/app/svc.log"
    );
    assert_eq!(
        e.show_remote_server_process_log_last(4294967295),
        "tail -n 4294967295 /srv/app/svc.log"
    );
}

#[test]
fn stage_uploads_to_temp_path() {
    let e = svc();
    let actions = e.push_executable_to_remote_server(true);
    assert_eq!(actions.len(), 1);
    match &actions[0] {
        DeployAction::UploadFile { local_file, remote_file, mode } => {
            assert_eq!(local_file, "/local/bin/svc");
            assert_eq!(remote_file, "/srv/app/svc.temp");
            assert_eq!(*mode, FULL_ACCESS_MODE);
        }
        other => panic!("unexpected action: {:?}", other),
    }
}

#[test]
fn stage_creates_absent_directory_first() {
    let e = svc();
    let actions = e.push_executable_to_remote_server(false);
    assert_eq!(actions.len(), 2);
    match &actions[0] {
        DeployAction::MakeDirectory { path, mode } => {
            assert_eq!(path, "/srv/app");
            assert_eq!(*mode, 0o777);
        }
        other => panic!("unexpected action: {:?}", other),
    }
    match &actions[1] {
        DeployAction::UploadFile { local_file, remote_file, mode } => {
            assert_eq!(local_file, "/local/bin/svc");
            assert_eq!(remote_file, "/srv/app/svc.temp");
            assert_eq!(*mode, 0o777);
        }
        other => panic!("unexpected action: {:?}", other),
    }
}

#[test]
fn trailing_slash_in_remote_dir_is_kept() {
    let e = Executable::new(
        String::from("svc"),
        String::from("/srv/app/"),
        String::from("/local/bin/"),
    )
    .unwrap();
    assert_eq!(e.remote_file_path(), "/srv/app/svc");
    assert_eq!(e.temp_file_path(), "/srv/app/svc.temp");
    assert_eq!(e.local_file_path(), "/local/bin/svc");
    assert_eq!(e.start_remote_server_process(), "nohup /srv/app/svc > /srv/app/svc.log 2>&1 &");
}
