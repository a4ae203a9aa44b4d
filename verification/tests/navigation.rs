use biliterm::page::liveroom::LiveRoomPage;
use biliterm::page::login::LoginPage;
use biliterm::page::{GlobalState, InputState, PageServiceHandle, Psh};
use std::future::Future;
use std::pin::Pin;
use std::task::{Context, Poll};
use std::time::Duration;
use tokio::runtime::Runtime;
use tokio::sync::watch;

struct Hold {
    _probe: watch::Sender<()>,
}

impl Future for Hold {
    type Output = ();

    fn poll(self: Pin<&mut Self>, _cx: &mut Context<'_>) -> Poll<()> {
        Poll::Pending
    }
}

fn runtime() -> Runtime {
    tokio::runtime::Builder::new_current_thread().enable_all().build().unwrap()
}

fn settle(rt: &Runtime) {
    let _context = rt.enter();
    rt.block_on(tokio::time::sleep(Duration::from_millis(20)));
}

fn stopped(probe: &watch::Receiver<()>) -> bool {
    probe.has_changed().is_err()
}

fn login(rt: &Runtime) -> (Psh, watch::Receiver<()>) {
    let (probe_tx, probe) = watch::channel(());
    let (_tx, rx) = watch::channel(LoginPage::new());
    let handle = rt.spawn(Hold { _probe: probe_tx });
    (Psh::LoginPageService(PageServiceHandle { watcher: rx, handle }), probe)
}

fn live(rt: &Runtime, roomid: u64) -> (Psh, watch::Receiver<()>) {
    let (probe_tx, probe) = watch::channel(());
    let (_tx, rx) = watch::channel(LiveRoomPage::new(roomid));
    let handle = rt.spawn(Hold { _probe: probe_tx });
    (Psh::LiveRoomPageService(PageServiceHandle { watcher: rx, handle }), probe)
}

fn titles(state: &GlobalState) -> Vec<String> {
    state.pages.iter().map(|p| p.0.clone()).collect()
}

fn rooms(state: &GlobalState) -> Vec<Option<u64>> {
    state.pages.iter().map(|p| p.1.live_roomid()).collect()
}

fn with_rooms(rt: &Runtime, n: u64) -> GlobalState {
    let mut state = GlobalState::new();
    for id in 0..n {
        state.regist_page(format!("room {}", id), live(rt, id).0);
    }
    state
}

#[test]
fn new_state_is_empty() {
    let state = GlobalState::new();
    assert!(state.pages.is_empty());
    assert_eq!(state.current_page, None);
    assert!(state.messages.is_empty());
    assert_eq!(state.input_state, InputState::Normal);
    let state = GlobalState::default();
    assert!(state.pages.is_empty());
    assert_eq!(state.current_page, None);
    assert!(state.messages.is_empty());
    assert_eq!(state.input_state, InputState::Normal);
}

#[test]
fn register_prev_close_scenario() {
    let rt = runtime();
    let mut state = GlobalState::new();
    let (a, probe_a) = login(&rt);
    let (b, probe_b) = live(&rt, 7);
    state.regist_page("A".to_string(), a);
    assert_eq!(state.current_page, Some(0));
    state.regist_page("B".to_string(), b);
    assert_eq!(state.current_page, Some(1));
    state.to_prev_page();
    assert_eq!(state.current_page, Some(0));
    state.close_page();
    assert_eq!(titles(&state), vec!["B".to_string()]);
    assert_eq!(rooms(&state), vec![Some(7)]);
    assert_eq!(state.current_page, Some(0));
    settle(&rt);
    assert!(stopped(&probe_a));
    assert!(!stopped(&probe_b));
}

#[test]
fn operations_on_an_empty_registry_do_nothing() {
    let mut state = GlobalState::new();
    state.to_next_page();
    assert_eq!(state.current_page, None);
    state.to_prev_page();
    assert_eq!(state.current_page, None);
    state.to_last_page();
    assert_eq!(state.current_page, None);
    state.close_page();
    assert_eq!(state.current_page, None);
    assert!(state.pages.is_empty());
    assert!(state.current_page_psh().is_none());
}

#[test]
fn closing_the_only_tab_leaves_nothing() {
    let rt = runtime();
    let mut state = GlobalState::new();
    let (a, probe) = login(&rt);
    state.regist_page("A".to_string(), a);
    state.close_page();
    assert_eq!(state.current_page, None);
    assert!(state.pages.is_empty());
    settle(&rt);
    assert!(stopped(&probe));
}

#[test]
fn closing_a_tab_selects_the_one_behind_it() {
    let rt = runtime();
    let mut state = with_rooms(&rt, 4);
    state.current_page = Some(1);
    state.close_page();
    assert_eq!(state.current_page, Some(1));
    assert_eq!(rooms(&state), vec![Some(0), Some(2), Some(3)]);
    assert_eq!(state.current_page_psh().unwrap().live_roomid(), Some(2));
    state.current_page = Some(0);
    state.close_page();
    assert_eq!(state.current_page, Some(0));
    assert_eq!(rooms(&state), vec![Some(2), Some(3)]);
}

#[test]
fn closing_the_last_tab_selects_the_first() {
    let rt = runtime();
    let mut state = with_rooms(&rt, 3);
    assert_eq!(state.current_page, Some(2));
    state.close_page();
    assert_eq!(state.current_page, Some(0));
    assert_eq!(rooms(&state), vec![Some(0), Some(1)]);
    assert_eq!(titles(&state), vec!["room 0".to_string(), "room 1".to_string()]);
}

#[test]
fn closing_cancels_only_the_closed_session() {
    let rt = runtime();
    let mut state = GlobalState::new();
    let mut probes = Vec::new();
    for id in 0..3 {
        let (psh, probe) = live(&rt, id);
        state.regist_page(format!("{}", id), psh);
        probes.push(probe);
    }
    state.current_page = Some(1);
    state.close_page();
    settle(&rt);
    assert!(!stopped(&probes[0]));
    assert!(stopped(&probes[1]));
    assert!(!stopped(&probes[2]));
}

#[test]
fn closing_without_a_selection_does_nothing() {
    let rt = runtime();
    let mut state = with_rooms(&rt, 2);
    state.current_page = None;
    state.close_page();
    assert_eq!(state.current_page, None);
    assert_eq!(rooms(&state), vec![Some(0), Some(1)]);
}

#[test]
fn next_goes_round() {
    let rt = runtime();
    let mut state = with_rooms(&rt, 3);
    state.current_page = Some(0);
    state.to_next_page();
    assert_eq!(state.current_page, Some(1));
    state.to_next_page();
    assert_eq!(state.current_page, Some(2));
    state.to_next_page();
    assert_eq!(state.current_page, Some(0));
}

#[test]
fn prev_goes_round() {
    let rt = runtime();
    let mut state = with_rooms(&rt, 3);
    state.current_page = Some(1);
    state.to_prev_page();
    assert_eq!(state.current_page, Some(0));
    state.to_prev_page();
    assert_eq!(state.current_page, Some(2));
    state.to_prev_page();
    assert_eq!(state.current_page, Some(1));
}

#[test]
fn next_and_prev_on_one_tab_stay() {
    let rt = runtime();
    let mut state = with_rooms(&rt, 1);
    state.to_next_page();
    assert_eq!(state.current_page, Some(0));
    state.to_prev_page();
    assert_eq!(state.current_page, Some(0));
}

#[test]
fn next_without_a_selection_selects_the_first() {
    let rt = runtime();
    let mut state = with_rooms(&rt, 3);
    state.current_page = None;
    state.to_next_page();
    assert_eq!(state.current_page, Some(0));
}

#[test]
fn prev_without_a_selection_selects_the_last() {
    let rt = runtime();
    let mut state = with_rooms(&rt, 3);
    state.current_page = None;
    state.to_prev_page();
    assert_eq!(state.current_page, Some(2));
}

#[test]
fn next_then_prev_returns() {
    let rt = runtime();
    for n in 1..5u64 {
        for start in 0..n as usize {
            let mut state = with_rooms(&rt, n);
            state.current_page = Some(start);
            state.to_next_page();
            assert!(state.current_page.unwrap() < n as usize);
            state.to_prev_page();
            assert_eq!(state.current_page, Some(start));
            state.to_prev_page();
            assert!(state.current_page.unwrap() < n as usize);
            state.to_next_page();
            assert_eq!(state.current_page, Some(start));
        }
    }
}

#[test]
fn any_walk_stays_among_the_tabs() {
    let rt = runtime();
    let mut state = with_rooms(&rt, 5);
    let mut seed: u32 = 12345;
    for _ in 0..200 {
        seed = seed.wrapping_mul(1103515245).wrapping_add(12345);
        if (seed >> 16) & 1 == 0 {
            state.to_next_page();
        } else {
            state.to_prev_page();
        }
        assert!(state.current_page.unwrap() < 5);
    }
}

#[test]
fn to_last_page_selects_the_last() {
    let rt = runtime();
    let mut state = with_rooms(&rt, 3);
    state.current_page = Some(0);
    state.to_last_page();
    assert_eq!(state.current_page, Some(2));
}

#[test]
fn current_page_psh_is_the_selected_session() {
    let rt = runtime();
    let mut state = with_rooms(&rt, 3);
    state.current_page = Some(1);
    assert_eq!(state.current_page_psh().unwrap().live_roomid(), Some(1));
    state.current_page = None;
    assert!(state.current_page_psh().is_none());
}

#[test]
fn message_goes_behind_the_earlier_ones() {
    let mut state = GlobalState::new();
    state.message("one".to_string());
    state.message("two".to_string());
    assert_eq!(state.messages, vec!["one".to_string(), "two".to_string()]);
    assert_eq!(state.current_page, None);
}
