use tas_server::dispatch::PathProbe;
use tas_server::members::{Members, Role, UserSettings};
use tas_server::messages::{ClientMessage, ServerMessage};
use tas_server::session::{Action, Inbound, Phase, Session, WriteOutcome};
use tas_server::shared::{IntoShared, Shared};
use tas_server::world::World;

fn strings(items: &[&str]) -> Vec<String> {
    items.iter().map(|s| s.to_string()).collect()
}

fn registry() -> Members {
    Members::new(
        vec![
            Role { title: "guest".to_string(), allowed_commands: strings(&["login", "who", "cd", "ls", "kill"]) },
        ],
        vec![("guest".to_string(), UserSettings { role: "guest".to_string(), pass: "".to_string() })],
    )
}

fn execute(tokens: &[&str]) -> Inbound {
    Inbound::Message(ClientMessage::Execute { command: strings(tokens) })
}

#[test]
fn handshake_queues_role_and_location_then_registers() {
    let members = registry();
    let mut world = World::new();
    let session = Session::connect(&mut world, &members, "/home".to_string()).unwrap();
    assert_eq!(session.position(), 0);
    assert_eq!(session.current_phase(), Phase::Active);
    assert_eq!(session.pending(), 2);
    assert_eq!(
        session.next_outbound(),
        Some(&ServerMessage::Role {
            title: "guest".to_string(),
            allowed_commands: strings(&["login", "who", "cd", "ls", "kill"])
        })
    );
    assert_eq!(world.len(), 1);
    assert_eq!(world.record(0).name, "guest");
    assert_eq!(world.record(0).location, "/home");
    assert!(world.record(0).alive);
}

#[test]
fn handshake_without_guest_role_fails_and_registers_nothing() {
    let members = Members::new(vec![], vec![]);
    let mut world = World::new();
    assert!(Session::connect(&mut world, &members, "/".to_string()).is_err());
    assert_eq!(world.len(), 0);
}

#[test]
fn outbound_queue_keeps_order_across_would_block() {
    let members = registry();
    let mut world = World::new();
    let mut session = Session::connect(&mut world, &members, "/home".to_string()).unwrap();
    session.on_write(WriteOutcome::WouldBlock);
    assert_eq!(session.pending(), 2);
    assert!(matches!(session.next_outbound(), Some(ServerMessage::Role { .. })));
    session.on_write(WriteOutcome::Written);
    assert_eq!(session.next_outbound(), Some(&ServerMessage::MoveTo { location: "/home".to_string() }));
    session.on_write(WriteOutcome::Written);
    assert_eq!(session.next_outbound(), None);
    session.on_write(WriteOutcome::Written);
    assert_eq!(session.pending(), 0);
    assert!(session.is_active());
}

#[test]
fn write_failure_closes() {
    let members = registry();
    let mut world = World::new();
    let mut session = Session::connect(&mut world, &members, "/home".to_string()).unwrap();
    session.on_write(WriteOutcome::Failed);
    assert_eq!(session.current_phase(), Phase::Closing);
    assert_eq!(session.pending(), 2);
    session.close();
    assert_eq!(session.current_phase(), Phase::Closed);
}

#[test]
fn inbound_not_ready_and_fault() {
    let members = registry();
    let mut world = World::new();
    let mut session = Session::connect(&mut world, &members, "/home".to_string()).unwrap();
    assert!(matches!(session.on_inbound(Inbound::NotReady, &mut world, &members), Ok(Action::Proceed)));
    assert!(session.is_active());
    assert!(matches!(session.on_inbound(Inbound::Fault, &mut world, &members), Ok(Action::Close)));
    assert_eq!(session.current_phase(), Phase::Closing);
}

#[test]
fn inbound_command_reply_is_queued() {
    let members = registry();
    let mut world = World::new();
    let mut session = Session::connect(&mut world, &members, "/home".to_string()).unwrap();
    assert!(matches!(session.on_inbound(execute(&["who"]), &mut world, &members), Ok(Action::Proceed)));
    assert_eq!(session.pending(), 3);
    assert!(matches!(session.on_inbound(execute(&["ls"]), &mut world, &members),
        Ok(Action::ListDirectory { location }) if location == "/home"));
    session.complete_listing(&vec![Some("/home/a".to_string()), None]);
    assert_eq!(session.pending(), 4);
    assert!(matches!(session.on_inbound(execute(&["cd", "a"]), &mut world, &members),
        Ok(Action::ChangeDirectory { location, target }) if location == "/home" && target == "a"));
    session.complete_change(PathProbe::Resolved { location: "/home/a".to_string() }, &mut world);
    assert_eq!(world.record(0).location, "/home/a");
    for _ in 0..4 {
        session.on_write(WriteOutcome::Written);
    }
    assert_eq!(session.next_outbound(), Some(&ServerMessage::MoveTo { location: "/home/a".to_string() }));
}

#[test]
fn killed_session_starts_closing() {
    let members = registry();
    let mut world = World::new();
    let mut first = Session::connect(&mut world, &members, "/deck".to_string()).unwrap();
    let mut second = Session::connect(&mut world, &members, "/deck".to_string()).unwrap();
    assert!(first.check_alive(&world));
    second.on_inbound(execute(&["kill", "guest"]), &mut world, &members).unwrap();
    assert!(!first.check_alive(&world));
    assert_eq!(first.current_phase(), Phase::Closing);
    assert_eq!(world.len(), 2);
}

#[test]
fn shared_cell_reads_and_writes() {
    let cell: Shared<Vec<u32>> = vec![1, 2].to_shared();
    let other = cell.clone();
    other.write().unwrap().push(3);
    assert_eq!(*cell.read().unwrap(), vec![1, 2, 3]);
    let shared = Shared::new(5u8).share();
    assert_eq!(*shared.read().unwrap(), 5);
}
