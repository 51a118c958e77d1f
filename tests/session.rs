use webterm::framebuffer::Display;
use webterm::input::key_events;
use webterm::keymap::{KeyCode, PhysicalKey};
use webterm::pacer::{pacer_tick, DirtyFlag, TickAction};
use webterm::session::{
    LoopAction, LoopEvent, Orchestrator, PtyRequest, SessionError, SessionState, TERM_TYPE,
};

fn running() -> Orchestrator {
    let mut o = Orchestrator::new();
    o.authenticate(true).unwrap();
    o.open_channel(24, 80);
    o.start();
    o
}

#[test]
fn end_to_end_session() {
    let mut o = Orchestrator::new();
    assert_eq!(o.current_state(), SessionState::Connecting);
    assert_eq!(o.authenticate(true), Ok(()));
    assert_eq!(o.current_state(), SessionState::Authenticated);
    let pty = o.open_channel(24, 80);
    assert_eq!(pty, PtyRequest { columns: 80, rows: 24 });
    assert_eq!(TERM_TYPE, "xterm-256color");
    assert_eq!(o.current_state(), SessionState::ChannelOpen);
    o.start();
    assert_eq!(o.current_state(), SessionState::Running);

    // "ls\n" typed: each key press reaches the engine, which hands back the
    // bytes to send upstream.
    let keys = [(KeyCode::KeyL, "l"), (KeyCode::KeyS, "s"), (KeyCode::Enter, "\n")];
    let mut sent: Vec<u8> = Vec::new();
    for (key, echo) in keys {
        assert_eq!(key_events(PhysicalKey::Code(key), false).len(), 1);
        let action = o.step(LoopEvent::InputApplied(Some(echo.as_bytes().to_vec())));
        match action {
            LoopAction::Send(bytes) => sent.extend(bytes),
            other => panic!("expected a send, got {:?}", other),
        }
    }
    assert_eq!(sent, b"ls\n".to_vec());

    // Inbound output is fed to the engine and marks the frame dirty.
    let mut flag = DirtyFlag::new(false);
    let action = o.step(LoopEvent::Inbound(b"file.txt\n".to_vec()));
    assert_eq!(action, LoopAction::Process(b"file.txt\n".to_vec()));
    flag.mark();

    // The next tick presents: the engine's flush draws, and the copy shows it.
    let mut display = Display::new(8, 2);
    assert_eq!(pacer_tick(&mut flag), TickAction::Present);
    display.draw_pixel(3, 1, (0xc0, 0xc0, 0xc0));
    let mut surface = vec![0u32; 16];
    display.copy_frame(&mut surface);
    assert_eq!(surface[1 * 8 + 3], 0x00c0_c0c0);
}

#[test]
fn authentication_failure_fails_session() {
    let mut o = Orchestrator::new();
    assert_eq!(o.authenticate(false), Err(SessionError::Authentication));
    assert_eq!(o.current_state(), SessionState::Failed);
    assert!(!o.close());
    assert_eq!(o.current_state(), SessionState::Failed);
    assert_eq!(o.step(LoopEvent::Outbound(b"x".to_vec())), LoopAction::Ignore);
}

#[test]
fn exit_status_ends_loop_and_close_disconnects() {
    let mut o = running();
    assert_eq!(o.step(LoopEvent::RemoteExit(0)), LoopAction::Exit(0));
    assert_eq!(o.current_state(), SessionState::Closing);
    assert_eq!(o.current_exit_status(), Some(0));
    assert_eq!(o.step(LoopEvent::Outbound(b"late".to_vec())), LoopAction::Ignore);
    assert_eq!(o.step(LoopEvent::Inbound(b"late".to_vec())), LoopAction::Ignore);
    assert!(o.close());
    assert_eq!(o.current_state(), SessionState::Closed);
    assert!(!o.close());
}

#[test]
fn input_without_outbound_marks_dirty() {
    let mut o = running();
    assert_eq!(o.step(LoopEvent::InputApplied(None)), LoopAction::MarkDirty);
    assert_eq!(o.step(LoopEvent::RemoteOther), LoopAction::Ignore);
}

#[test]
fn sends_keep_event_order() {
    let mut o = running();
    let events = vec![
        LoopEvent::Outbound(b"a".to_vec()),
        LoopEvent::Inbound(b"zzz".to_vec()),
        LoopEvent::InputApplied(Some(b"b".to_vec())),
        LoopEvent::InputApplied(None),
        LoopEvent::Outbound(b"c".to_vec()),
    ];
    let mut sent: Vec<Vec<u8>> = Vec::new();
    for e in events {
        if let LoopAction::Send(bytes) = o.step(e) {
            sent.push(bytes);
        }
    }
    assert_eq!(sent, vec![b"a".to_vec(), b"b".to_vec(), b"c".to_vec()]);
}

#[test]
fn closed_sources_stop_loop() {
    let mut o = running();
    assert_eq!(o.step(LoopEvent::SourcesClosed), LoopAction::Stop);
    assert_eq!(o.current_state(), SessionState::Closing);
    assert_eq!(o.current_exit_status(), None);
}

#[test]
fn transport_error_fails_from_any_state() {
    let mut o = running();
    assert_eq!(o.transport_failed(), SessionError::Transport);
    assert_eq!(o.current_state(), SessionState::Failed);
    assert!(!o.close());
    let mut fresh = Orchestrator::new();
    assert_eq!(fresh.transport_failed(), SessionError::Transport);
}
