use desktop_shell::attention::{flash_taskbar, AttentionKind, Command, HostError};
use desktop_shell::lifecycle::{Action, BuildProfile, Event, Shell};

fn running(profile: BuildProfile) -> Shell {
    let mut shell = Shell::new(profile);
    shell.step(Event::Setup { main_window_found: true });
    shell
}

fn failed(text: &str) -> Result<(), HostError> {
    Err(HostError { message: String::from(text) })
}

#[test]
fn command_is_named_flash_taskbar() {
    assert_eq!(Command::FlashTaskbar.name(), "flash_taskbar");
}

#[test]
fn success_is_replied_without_payload() {
    assert_eq!(flash_taskbar(Ok(())), Ok(()));
}

#[test]
fn failure_is_replied_with_the_host_message() {
    let reply = flash_taskbar(failed("runtime error: failed to send message to the webview"));
    assert_eq!(
        reply,
        Err(String::from("runtime error: failed to send message to the webview"))
    );
}

#[test]
fn failure_message_is_not_empty_for_a_destroyed_window() {
    let reply = flash_taskbar(failed("window not found"));
    assert!(reply.is_err());
    assert!(!reply.unwrap_err().is_empty());
}

#[test]
fn failure_with_an_empty_host_message_is_still_a_failure() {
    assert_eq!(flash_taskbar(failed("")), Err(String::new()));
}

#[test]
fn reply_does_not_change_the_message() {
    let text = "os error 5: \u{e9}chec \u{2014} acc\u{e8}s refus\u{e9}";
    assert_eq!(flash_taskbar(failed(text)), Err(String::from(text)));
}

#[test]
fn invocation_asks_for_informational_attention() {
    let mut shell = running(BuildProfile::Release);
    let action = shell.step(Event::Invoked(Command::FlashTaskbar));
    assert_eq!(action, Action::RequestAttention(AttentionKind::Informational));
    assert_ne!(action, Action::RequestAttention(AttentionKind::Critical));
}

#[test]
fn two_invocations_in_succession_both_succeed() {
    let mut shell = running(BuildProfile::Debug);
    let before = shell;
    let first = shell.step(Event::Invoked(Command::FlashTaskbar));
    assert_eq!(flash_taskbar(Ok(())), Ok(()));
    let second = shell.step(Event::Invoked(Command::FlashTaskbar));
    assert_eq!(flash_taskbar(Ok(())), Ok(()));
    assert_eq!(first, second);
    assert_eq!(shell, before);
}

#[test]
fn a_failed_invocation_does_not_taint_the_next() {
    let mut shell = running(BuildProfile::Release);
    let before = shell;
    shell.step(Event::Invoked(Command::FlashTaskbar));
    assert_eq!(flash_taskbar(failed("window destroyed")), Err(String::from("window destroyed")));
    let action = shell.step(Event::Invoked(Command::FlashTaskbar));
    assert_eq!(action, Action::RequestAttention(AttentionKind::Informational));
    assert_eq!(flash_taskbar(Ok(())), Ok(()));
    assert_eq!(shell, before);
}

#[test]
fn many_invocations_leave_the_shell_as_it_was() {
    let mut shell = running(BuildProfile::Debug);
    let before = shell;
    for _ in 0..100 {
        let action = shell.step(Event::Invoked(Command::FlashTaskbar));
        assert_eq!(action, Action::RequestAttention(AttentionKind::Informational));
    }
    assert_eq!(shell, before);
}
