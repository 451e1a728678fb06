use spotify_player::request::{ClientRequest, PlayerRequest};
use spotify_player::run_loop::{RunAction, RunEvent, RunLoop};
use spotify_player::time::Elapsed;
use std::time::Instant;

type Request = ClientRequest<&'static str, &'static str>;

fn volume(v: u8) -> Request {
    ClientRequest::Player(PlayerRequest::Volume(v))
}

fn command(c: &'static str) -> Request {
    ClientRequest::Player(PlayerRequest::Other(c))
}

fn set(v: u8) -> RunAction<&'static str, &'static str> {
    RunAction::Command(PlayerRequest::Volume(v))
}

/// Runs the loop on requests that are all in the queue from the start.
fn work(requests: Vec<Request>) -> Vec<RunAction<&'static str, &'static str>> {
    let mut queue = requests.into_iter();
    let mut run = RunLoop::new(1000);
    let mut done = Vec::new();
    let mut event = RunEvent::Ready;
    loop {
        event = match run.step(event) {
            RunAction::Wait => RunEvent::Received(queue.next()),
            RunAction::TryReceive => RunEvent::Queued(queue.next()),
            RunAction::Stop => return done,
            action => {
                done.push(action);
                RunEvent::Ready
            }
        };
    }
}

#[test]
fn queued_volumes_collapse_to_the_last() {
    assert_eq!(work(vec![volume(1), volume(2), volume(3)]), vec![set(3)]);
    assert_eq!(work(vec![volume(1)]), vec![set(1)]);
    assert_eq!(work(vec![]), vec![]);
}

#[test]
fn volumes_do_not_cross_other_requests() {
    assert_eq!(
        work(vec![
            volume(1),
            volume(2),
            command("pause"),
            volume(3),
            ClientRequest::GetCurrentPlayback,
            volume(4),
            volume(5),
            ClientRequest::Other("search"),
            command("play"),
        ]),
        vec![
            set(2),
            RunAction::Command(PlayerRequest::Other("pause")),
            set(3),
            RunAction::Spawn(ClientRequest::GetCurrentPlayback),
            set(5),
            RunAction::Spawn(ClientRequest::Other("search")),
            RunAction::Command(PlayerRequest::Other("play")),
        ]
    );
}

#[test]
fn late_volume_is_set_on_its_own() {
    let mut run: RunLoop<&str, &str> = RunLoop::new(0);
    assert_eq!(run.step(RunEvent::Received(Some(volume(10)))), RunAction::TryReceive);
    assert_eq!(run.step(RunEvent::Queued(None)), set(10));
    assert_eq!(run.step(RunEvent::Ready), RunAction::Wait);
    assert_eq!(run.step(RunEvent::Received(Some(volume(20)))), RunAction::TryReceive);
    assert_eq!(run.step(RunEvent::Queued(None)), set(20));
}

#[test]
fn ticks_do_not_disturb_the_order() {
    let mut run: RunLoop<&str, &str> = RunLoop::new(1000);
    let at = Instant::now();
    assert_eq!(run.step(RunEvent::SessionTick), RunAction::CheckSession);
    assert_eq!(run.step(RunEvent::Ready), RunAction::Wait);
    assert_eq!(run.step(RunEvent::Received(Some(volume(10)))), RunAction::TryReceive);
    assert_eq!(run.step(RunEvent::Queued(Some(volume(20)))), RunAction::TryReceive);
    assert_eq!(run.step(RunEvent::Queued(Some(command("next")))), set(20));
    assert_eq!(
        run.step(RunEvent::Ready),
        RunAction::Command(PlayerRequest::Other("next"))
    );
    assert_eq!(run.step(RunEvent::Ready), RunAction::Wait);
    assert_eq!(
        run.step_at(RunEvent::EventTick, Elapsed::from_secs(1), at),
        RunAction::SendRefresh
    );
    assert_eq!(run.step(RunEvent::RefreshSent(true)), RunAction::LookAtPlayer);
    run.handler_state.ended_playable_uri = Some("spotify:track:abc".into());
    assert_eq!(run.step(RunEvent::Ready), RunAction::Wait);
    assert_eq!(run.step(RunEvent::Received(Some(volume(30)))), RunAction::TryReceive);
    assert_eq!(run.step(RunEvent::Queued(None)), set(30));
}

#[test]
fn deferred_request_comes_before_waiting() {
    let mut run: RunLoop<&str, &str> = RunLoop::new(0);
    run.step(RunEvent::Received(Some(volume(10))));
    assert_eq!(run.step(RunEvent::Queued(Some(command("next")))), set(10));
    assert_eq!(
        run.step(RunEvent::Ready),
        RunAction::Command(PlayerRequest::Other("next"))
    );
    assert_eq!(run.step(RunEvent::Ready), RunAction::Wait);
}

fn tick(refresh_ms: u64, elapsed: Elapsed) -> RunAction<&'static str, &'static str> {
    RunLoop::new(refresh_ms).step_at(RunEvent::EventTick, elapsed, Instant::now())
}

#[test]
fn playback_is_polled_no_more_than_once_a_second() {
    assert_eq!(tick(1, Elapsed::from_millis(999)), RunAction::LookAtPlayer);
    assert_eq!(tick(1, Elapsed::from_millis(1000)), RunAction::SendRefresh);
    assert_eq!(tick(1000, Elapsed::from_millis(1000)), RunAction::SendRefresh);
    assert_eq!(tick(5000, Elapsed::from_millis(4999)), RunAction::LookAtPlayer);
    assert_eq!(tick(5000, Elapsed::from_millis(5000)), RunAction::SendRefresh);
}

#[test]
fn zero_switches_polling_off() {
    assert_eq!(tick(0, Elapsed::from_secs(u64::MAX)), RunAction::LookAtPlayer);
}

#[test]
fn sent_refresh_is_remembered() {
    let mut run: RunLoop<&str, &str> = RunLoop::new(1000);
    let at = Instant::now();
    assert_eq!(
        run.step_at(RunEvent::RefreshSent(true), Elapsed::zero(), at),
        RunAction::LookAtPlayer
    );
    assert_eq!(run.handler_state.last_playback_refresh, at);
}

#[test]
fn loop_ends_when_nothing_can_be_sent_or_received() {
    let mut run: RunLoop<&str, &str> = RunLoop::new(1000);
    assert_eq!(run.step(RunEvent::RefreshSent(false)), RunAction::Stop);
    assert_eq!(run.step(RunEvent::Received(None)), RunAction::Stop);
    assert_eq!(run.step(RunEvent::SessionTick), RunAction::CheckSession);
}

#[test]
fn fresh_loop_has_nothing_to_do() {
    let at = Instant::now();
    let run: RunLoop<&str, &str> = RunLoop::new_at(1500, at);
    assert_eq!(run.playback_refresh_ms, 1500);
    assert!(run.deferred.is_none());
    assert!(run.volume.is_none());
    assert!(run.handler_state.ended_playable_uri.is_none());
    assert!(run.handler_state.last_queue_refresh.is_none());
    assert_eq!(run.handler_state.last_get_context, at);
    assert_eq!(run.handler_state.last_playback_refresh, at);
}
