use farce::engine_thread_manager::{EngineThreadManager, MessageToEngine};
use farce::protocol::{identification, recognize, Command, Reaction};

fn tokens_of(line: &str) -> Vec<String> {
    line.split_whitespace().map(String::from).collect()
}

#[test]
fn every_command_is_recognized() {
    assert_eq!(recognize(&String::from("debug")), Some(Command::Debug));
    assert_eq!(recognize(&String::from("go")), Some(Command::Go));
    assert_eq!(recognize(&String::from("isready")), Some(Command::IsReady));
    assert_eq!(recognize(&String::from("ponderhit")), Some(Command::PonderHit));
    assert_eq!(recognize(&String::from("position")), Some(Command::Position));
    assert_eq!(recognize(&String::from("quit")), Some(Command::Quit));
    assert_eq!(recognize(&String::from("register")), Some(Command::Register));
    assert_eq!(recognize(&String::from("setoption")), Some(Command::SetOption));
    assert_eq!(recognize(&String::from("stop")), Some(Command::Stop));
    assert_eq!(recognize(&String::from("uci")), Some(Command::Uci));
    assert_eq!(recognize(&String::from("ucinewgame")), Some(Command::UciNewGame));
}

#[test]
fn other_tokens_name_no_command() {
    assert_eq!(recognize(&String::from("")), None);
    assert_eq!(recognize(&String::from("Go")), None);
    assert_eq!(recognize(&String::from("ucinew")), None);
    assert_eq!(recognize(&String::from("stopp")), None);
    assert_eq!(recognize(&String::from("joho")), None);
}

#[test]
fn identification_has_three_lines_in_order() {
    assert_eq!(identification(), ["id name farce", "id author Kef Schecter", "uciok"]);
}

#[test]
fn control_lines_queue_their_signal() {
    let mut mgr = EngineThreadManager::new();
    assert_eq!(mgr.handle_line(&tokens_of("isready")), Reaction::Nothing);
    assert_eq!(mgr.handle_line(&tokens_of("  stop  ")), Reaction::Nothing);
    assert_eq!(mgr.handle_line(&tokens_of("ponderhit")), Reaction::Nothing);
    assert_eq!(mgr.pending(), 3);
    assert_eq!(mgr.next_message(), Some(MessageToEngine::IsReady));
    assert_eq!(mgr.next_message(), Some(MessageToEngine::Stop));
    assert_eq!(mgr.next_message(), Some(MessageToEngine::PonderHit));
    assert_eq!(mgr.next_message(), None);
}

#[test]
fn unknown_and_empty_lines_are_dropped() {
    let mut mgr = EngineThreadManager::new();
    assert_eq!(mgr.handle_line(&tokens_of("")), Reaction::Nothing);
    assert_eq!(mgr.handle_line(&tokens_of("joho stop isready")), Reaction::Nothing);
    assert_eq!(mgr.handle_line(&tokens_of("debug on")), Reaction::Nothing);
    assert_eq!(mgr.handle_line(&tokens_of("register later")), Reaction::Nothing);
    assert_eq!(mgr.handle_line(&tokens_of("ucinewgame")), Reaction::Nothing);
    assert_eq!(mgr.handle_line(&tokens_of("go infinite")), Reaction::Nothing);
    assert_eq!(mgr.handle_line(&tokens_of("position startpos moves e2e4")), Reaction::Nothing);
    assert_eq!(mgr.handle_line(&tokens_of("setoption name Hash value 32")), Reaction::Nothing);
    assert_eq!(mgr.pending(), 0);
}

#[test]
fn uci_and_quit_are_left_to_the_reader() {
    let mut mgr = EngineThreadManager::new();
    assert_eq!(mgr.handle_line(&tokens_of("uci")), Reaction::Identify);
    assert_eq!(mgr.handle_line(&tokens_of("quit")), Reaction::Quit);
    assert_eq!(mgr.pending(), 0);
}
