use tgdyk::failure::Failure;
use tgdyk::service::{accept_loop, ServeAction, ServeEvent};
use tgdyk::stream::{serve_client, ClientAction, Delivery};

#[test]
fn clients_do_not_end_the_service() {
    assert_eq!(accept_loop(ServeEvent::Accepted), ServeAction::Attend);
    assert_eq!(accept_loop(ServeEvent::ClientEnded), ServeAction::GoOn);
}

#[test]
fn failing_to_accept_ends_the_service() {
    match accept_loop(ServeEvent::AcceptFailed("no more".to_string())) {
        ServeAction::Fail(failure) => {
            assert_eq!(failure, Failure::AcceptFailed("no more".to_string()));
            assert_eq!(failure.message(), "failed to accept client");
            assert_eq!(failure.cause().as_deref(), Some("no more"));
        }
        other => panic!("{:?}", other),
    }
}

#[test]
fn signals_end_the_service() {
    assert_eq!(accept_loop(ServeEvent::Signalled), ServeAction::Finish);
    match accept_loop(ServeEvent::SignalFailed("denied".to_string())) {
        ServeAction::Fail(failure) => {
            assert_eq!(failure.message(), "failed to listen for shutdown signal");
            assert_eq!(failure.cause().as_deref(), Some("denied"));
        }
        other => panic!("{:?}", other),
    }
}

#[test]
fn lost_clients_leave_the_others_alone() {
    let updates = ["1", "2", "3"];
    let mut streams: Vec<Vec<u8>> = vec![Vec::new(), Vec::new()];
    let mut connected = [true, true];
    for (at, update) in updates.iter().enumerate() {
        for client in 0..2 {
            if !connected[client] {
                continue;
            }
            let delivery = if client == 0 && at == 1 {
                Delivery::Lagged(7)
            } else {
                Delivery::Update(update.to_string())
            };
            match serve_client(&delivery) {
                ClientAction::Write(bytes) => streams[client].extend(bytes),
                ClientAction::Disconnect => {
                    connected[client] = false;
                    assert_eq!(accept_loop(ServeEvent::ClientEnded), ServeAction::GoOn);
                }
            }
        }
    }
    assert_eq!(streams[0], b"1\n".to_vec());
    assert_eq!(streams[1], b"1\n2\n3\n".to_vec());
}
