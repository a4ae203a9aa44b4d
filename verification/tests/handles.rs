use biliterm::page::liveroom::{Danmaku, LiveRoomPage};
use biliterm::page::login::{LoginPage, LoginState};
use biliterm::page::{PageServiceHandle, Psh};
use biliterm::screen::Page;
use std::future::Future;
use std::pin::Pin;
use std::task::{Context, Poll};
use std::time::Duration;
use tokio::runtime::Runtime;
use tokio::sync::watch;

/// A task that never ends by itself; its probe closes when the task is dropped.
struct Hold {
    _probe: watch::Sender<()>,
}

impl Future for Hold {
    type Output = ();

    fn poll(self: Pin<&mut Self>, _cx: &mut Context<'_>) -> Poll<()> {
        Poll::Pending
    }
}

fn runtime() -> Runtime {
    tokio::runtime::Builder::new_current_thread().enable_all().build().unwrap()
}

fn spawn_held(rt: &Runtime) -> (tokio::task::JoinHandle<()>, watch::Receiver<()>) {
    let (probe_tx, probe_rx) = watch::channel(());
    (rt.spawn(Hold { _probe: probe_tx }), probe_rx)
}

fn settle(rt: &Runtime) {
    let _context = rt.enter();
    rt.block_on(tokio::time::sleep(Duration::from_millis(20)));
}

fn stopped(probe: &watch::Receiver<()>) -> bool {
    probe.has_changed().is_err()
}

fn danmaku(n: u64) -> Danmaku {
    Danmaku { junk_flag: 0, message: format!("m{}", n), uname: format!("u{}", n), fans_medal: None }
}

#[test]
fn peek_right_after_creation_returns_the_seed() {
    let rt = runtime();
    let mut seed = LiveRoomPage::new(477317922);
    seed.push_danmaku(danmaku(1));
    let (_tx, rx) = watch::channel(seed.clone());
    let (handle, _probe) = spawn_held(&rt);
    let psh = PageServiceHandle { watcher: rx, handle };
    assert_eq!(psh.peek(), seed);
    assert_eq!(psh.peek(), seed);
}

#[test]
fn peek_returns_the_latest_value() {
    let rt = runtime();
    let (tx, rx) = watch::channel(LoginPage::new());
    let (handle, _probe) = spawn_held(&rt);
    let psh = PageServiceHandle { watcher: rx, handle };
    assert_eq!(psh.peek(), LoginPage::new());
    tx.send_modify(|p| {
        p.on_state(&LoginState::FetchingQrcode);
    });
    tx.send_modify(|p| {
        p.on_state(&LoginState::QrcodeExpired);
    });
    let mut expected = LoginPage::new();
    expected.on_state(&LoginState::QrcodeExpired);
    assert_eq!(psh.peek(), expected);
}

#[test]
fn peek_after_the_writer_is_gone_returns_the_last_value() {
    let rt = runtime();
    let (tx, rx) = watch::channel(LiveRoomPage::new(3));
    let (handle, _probe) = spawn_held(&rt);
    let psh = PageServiceHandle { watcher: rx, handle };
    tx.send_modify(|p| p.push_danmaku(danmaku(7)));
    drop(tx);
    let mut expected = LiveRoomPage::new(3);
    expected.push_danmaku(danmaku(7));
    assert_eq!(psh.peek(), expected);
}

#[test]
fn cancel_stops_the_task() {
    let rt = runtime();
    let (_tx, rx) = watch::channel(LoginPage::new());
    let (handle, probe) = spawn_held(&rt);
    let psh = PageServiceHandle { watcher: rx, handle };
    settle(&rt);
    assert!(!stopped(&probe));
    psh.cancel();
    settle(&rt);
    assert!(stopped(&probe));
}

#[test]
fn cancel_twice_is_harmless() {
    let rt = runtime();
    let (_tx, rx) = watch::channel(LoginPage::new());
    let (handle, probe) = spawn_held(&rt);
    let psh = PageServiceHandle { watcher: rx, handle };
    psh.cancel();
    psh.cancel();
    settle(&rt);
    assert!(stopped(&probe));
    psh.cancel();
    assert_eq!(psh.peek(), LoginPage::new());
}

#[test]
fn cancel_after_the_task_has_ended_is_harmless() {
    let rt = runtime();
    let (_tx, rx) = watch::channel(LoginPage::new());
    let handle = rt.spawn(std::future::ready(()));
    settle(&rt);
    assert!(handle.is_finished());
    let psh = PageServiceHandle { watcher: rx, handle };
    psh.cancel();
    assert_eq!(psh.peek(), LoginPage::new());
}

#[test]
fn abort_stops_the_task_of_either_kind() {
    let rt = runtime();
    let (_tx, rx) = watch::channel(LoginPage::new());
    let (handle, probe) = spawn_held(&rt);
    Psh::LoginPageService(PageServiceHandle { watcher: rx, handle }).abort();
    settle(&rt);
    assert!(stopped(&probe));

    let (_tx, rx) = watch::channel(LiveRoomPage::new(1));
    let (handle, probe) = spawn_held(&rt);
    Psh::LiveRoomPageService(PageServiceHandle { watcher: rx, handle }).abort();
    settle(&rt);
    assert!(stopped(&probe));
}

#[test]
fn live_roomid_is_read_from_the_latest_state() {
    let rt = runtime();
    let (tx, rx) = watch::channel(LiveRoomPage::new(5));
    let (handle, _probe) = spawn_held(&rt);
    let psh = Psh::LiveRoomPageService(PageServiceHandle { watcher: rx, handle });
    assert_eq!(psh.live_roomid(), Some(5));
    tx.send_modify(|p| p.roomid = 6);
    assert_eq!(psh.live_roomid(), Some(6));

    let (_tx, rx) = watch::channel(LoginPage::new());
    let (handle, _probe) = spawn_held(&rt);
    let psh = Psh::LoginPageService(PageServiceHandle { watcher: rx, handle });
    assert_eq!(psh.live_roomid(), None);
}

#[test]
fn peek_of_a_session_gives_its_kind_of_page() {
    let rt = runtime();
    let (_tx, rx) = watch::channel(LiveRoomPage::new(5));
    let (handle, _probe) = spawn_held(&rt);
    let psh = Psh::LiveRoomPageService(PageServiceHandle { watcher: rx, handle });
    assert_eq!(psh.peek(), Page::LiveRoom(LiveRoomPage::new(5)));

    let (_tx, rx) = watch::channel(LoginPage::new());
    let (handle, _probe) = spawn_held(&rt);
    let psh = Psh::LoginPageService(PageServiceHandle { watcher: rx, handle });
    assert_eq!(psh.peek(), Page::Login(LoginPage::new()));
}
