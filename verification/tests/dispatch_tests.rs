use vulcan::backup::{BackupHandler, Store};
use vulcan::communication::{Request, WebReply};
use vulcan::dispatch::{Dispatcher, DriverCall};
use vulcan::dmx::{Fade, Universe};
use vulcan::store::MemStore;

fn memory_dispatcher(address: &str) -> Dispatcher {
    let handler = BackupHandler::with_store(String::from(address), Store::Memory(MemStore::new()));
    Dispatcher::new(handler)
}

fn fade(channel: u32, value: u8) -> Fade {
    Fade { channel, value, duration: None }
}

#[test]
fn plan_matches_each_command() {
    let dispatcher = memory_dispatcher("a");
    match dispatcher.plan(&Request::PlayFade { fade: fade(1, 10) }) {
        DriverCall::ApplyFade(f) => {
            assert_eq!(f.channel, 1);
            assert_eq!(f.value, 10);
        },
        _ => panic!("a fade command must ask for a fade"),
    }
    let mut universe = Universe::new();
    universe.set(3, 30);
    match dispatcher.plan(&Request::Restore { universe }) {
        DriverCall::ReplaceState(u) => assert_eq!(u.get(3), 30),
        _ => panic!("a restore command must ask for a full replacement"),
    }
    match dispatcher.plan(&Request::Quit) {
        DriverCall::Nothing => {},
        _ => panic!("a quit command asks for no driver call"),
    }
}

#[test]
fn accepted_fade_replies_success_and_is_mirrored() {
    let mut dispatcher = memory_dispatcher("a");
    let reply = dispatcher.settle(Request::PlayFade { fade: fade(1, 10) }, None);
    assert!(reply.is_success());
    assert!(dispatcher.is_running());
    let recovered = dispatcher.startup().expect("the accepted fade must have been mirrored");
    assert_eq!(recovered.get(1), 10);
}

#[test]
fn rejected_fade_replies_failure_and_is_not_mirrored() {
    let mut dispatcher = memory_dispatcher("a");
    let ok = dispatcher.settle(Request::PlayFade { fade: fade(1, 10) }, None);
    assert!(ok.is_success());
    let reply = dispatcher.settle(
        Request::PlayFade { fade: fade(1, 99) },
        Some(String::from("hardware fault")),
    );
    assert!(!reply.is_success());
    let WebReply::Generic { is_valid, message } = reply;
    assert!(!is_valid);
    assert_eq!(message, "hardware fault");
    let recovered = dispatcher.startup().expect("the earlier snapshot must still be there");
    assert_eq!(recovered.get(1), 10);
}

#[test]
fn restore_replies_success_and_is_mirrored() {
    let mut dispatcher = memory_dispatcher("a");
    let mut universe = Universe::new();
    universe.set(100, 200);
    let reply = dispatcher.settle(Request::Restore { universe }, None);
    assert!(reply.is_success());
    let recovered = dispatcher.startup().expect("the restore must have been mirrored");
    assert_eq!(recovered.get(100), 200);
}

#[test]
fn quit_stops_the_dispatcher() {
    let mut dispatcher = memory_dispatcher("a");
    let reply = dispatcher.settle(Request::Quit, None);
    assert!(reply.is_success());
    assert!(!dispatcher.is_running());
}

#[test]
fn fades_are_applied_in_arrival_order() {
    let mut dispatcher = memory_dispatcher("a");
    let first = dispatcher.settle(Request::PlayFade { fade: fade(1, 10) }, None);
    let second = dispatcher.settle(Request::PlayFade { fade: fade(1, 20) }, None);
    assert!(first.is_success());
    assert!(second.is_success());
    let recovered = dispatcher.startup().expect("the fades must have been mirrored");
    assert_eq!(recovered.get(1), 20);
}

#[test]
fn no_store_leaves_replies_unaffected() {
    let handler = BackupHandler::new(String::from("a"), None);
    let mut dispatcher = Dispatcher::new(handler);
    assert!(dispatcher.startup().is_none());
    assert!(dispatcher.settle(Request::PlayFade { fade: fade(1, 10) }, None).is_success());
    let mut universe = Universe::new();
    universe.set(2, 20);
    assert!(dispatcher.settle(Request::Restore { universe }, None).is_success());
    assert!(dispatcher.startup().is_none());
    assert!(dispatcher.settle(Request::Quit, None).is_success());
}

#[test]
fn startup_finds_orphaned_snapshot() {
    let mut crashed = BackupHandler::with_store(
        String::from("127.0.0.1:8000"),
        Store::Memory(MemStore::new()),
    );
    let mut universe = Universe::new();
    universe.set(1, 111);
    crashed.backup_universe(universe);
    let store = crashed.abandon();

    let handler = BackupHandler::with_store(String::from("127.0.0.1:8000"), store);
    let mut dispatcher = Dispatcher::new(handler);
    let recovered = dispatcher.startup().expect("an orphaned snapshot must be replayed");
    assert_eq!(recovered.get(1), 111);
}

#[test]
fn into_store_erases_the_entry() {
    let mut dispatcher = memory_dispatcher("127.0.0.1:8000");
    dispatcher.settle(Request::PlayFade { fade: fade(1, 10) }, None);
    dispatcher.settle(Request::Quit, None);
    let store = dispatcher.into_store();

    let handler = BackupHandler::with_store(String::from("127.0.0.1:8000"), store);
    let mut dispatcher = Dispatcher::new(handler);
    assert!(dispatcher.startup().is_none());
}
