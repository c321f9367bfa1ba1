use actor_core::cell::{ActorCell, KernelHandle};
use actor_core::children::Children;
use actor_core::context::Context;
use actor_core::msg::AnyMessage;
use actor_core::refs::{ActorRef, BasicActorRef};
use actor_core::selection::select;
use actor_core::timer::{Job, SendAt};
use actor_core::uri::{is_valid_name, make_child_uri, ActorUri};
use actor_core::msg::Strategy;
use actor_core::system::ActorSystem;

struct Quiet;

impl actor_core::cell::Actor for Quiet {
    type Msg = u64;

    fn post_stop(&mut self) {}
}

fn uri(name: &str, path: &str) -> ActorUri {
    ActorUri { name: String::from(name), path: String::from(path), host: String::from("local") }
}

fn basic(uid: u64, name: &str, path: &str) -> BasicActorRef {
    BasicActorRef { uid, uri: uri(name, path) }
}

fn typed(uid: u64, name: &str, path: &str, tag: u64) -> ActorRef {
    ActorRef { basic: basic(uid, name, path), msg_tag: tag }
}

#[test]
fn child_uri_extends_parent_path() {
    let parent = uri("foo", "/user/foo");
    let child = make_child_uri(&parent, "bar");
    assert_eq!(child.name, "bar");
    assert_eq!(child.path, "/user/foo/bar");
    assert_eq!(child.host, "local");
}

#[test]
fn decimal_rendering() {
    assert_eq!(actor_core::uri::u64_to_dec(0), "0");
    assert_eq!(actor_core::uri::u64_to_dec(7), "7");
    assert_eq!(actor_core::uri::u64_to_dec(907), "907");
    assert_eq!(actor_core::uri::u64_to_dec(u64::MAX), "18446744073709551615");
}

#[test]
fn name_validity() {
    assert!(is_valid_name("worker"));
    assert!(!is_valid_name(""));
    assert!(!is_valid_name("a/b"));
    assert!(!is_valid_name("/"));
}

#[test]
fn references_are_equal_by_uid() {
    let a = basic(9, "a", "/user/a");
    let b = basic(9, "a", "/user/a");
    let c = basic(10, "c", "/user/c");
    assert!(a == b);
    assert!(a != c);
    assert_eq!(a.path(), b.path());
    let ta = typed(9, "a", "/user/a", 1);
    let tb = typed(9, "a", "/user/a", 1);
    assert!(ta == tb);
}

#[test]
fn registry_add_remove_iter() {
    let mut ch = Children::new();
    assert_eq!(ch.len(), 0);
    ch.add(basic(4, "a", "/user/a"));
    ch.add(basic(5, "b", "/user/b"));
    assert_eq!(ch.len(), 2);
    assert!(ch.contains(4));
    assert!(ch.contains_named(&String::from("b")));

    let snapshot = ch.iter();
    assert_eq!(snapshot.len(), 2);
    assert_eq!(snapshot[0].uid, 4);
    assert_eq!(snapshot[1].uid, 5);

    ch.remove(&basic(4, "a", "/user/a"));
    assert_eq!(ch.len(), 1);
    assert!(!ch.contains(4));
    // Removing an absent entry is a no-op.
    ch.remove(&basic(4, "a", "/user/a"));
    assert_eq!(ch.len(), 1);
}

#[test]
fn registry_last_write_wins_on_name_collision() {
    let mut ch = Children::new();
    ch.add(basic(4, "same", "/user/same"));
    ch.add(basic(6, "same", "/user/same"));
    assert_eq!(ch.len(), 1);
    let snapshot = ch.iter();
    assert_eq!(snapshot[0].uid, 6);
}

#[test]
fn erased_dispatch_checks_the_tag() {
    let mut cell: ActorCell<u64> =
        ActorCell::new(8, uri("w", "/user/w"), None, 21).init(KernelHandle { id: 8 });
    let mut wrong = AnyMessage::new(99, 5u64, false);
    assert!(cell.send_any_msg(&mut wrong, None).is_err());
    assert!(wrong.msg.is_some());

    let mut right = AnyMessage::new(21, 5u64, false);
    assert!(cell.send_any_msg(&mut right, None).is_ok());
    // The payload is consumed exactly on success.
    assert!(right.msg.is_none());
    assert_eq!(cell.mailbox.len(), 1);
}

#[test]
fn selection_cases() {
    let myself = basic(7, "foo", "/user/foo");
    let user_root = basic(1, "user", "/user");

    let abs = select(&myself, &user_root, "/user/foo/bar").unwrap();
    assert_eq!(abs.anchor.uid, 1);
    assert_eq!(abs.path, "foo/bar");

    let rel = select(&myself, &user_root, "child").unwrap();
    assert_eq!(rel.anchor.uid, 7);
    assert_eq!(rel.path, "child");

    let empty = select(&myself, &user_root, "");
    assert!(empty.is_err());
    assert_eq!(empty.err().unwrap().path, "");

    let doubled = select(&myself, &user_root, "a//b");
    assert!(doubled.is_err());
}

fn context() -> Context<u64> {
    Context {
        myself: typed(7, "foo", "/user/foo", 21),
        user_root: basic(1, "user", "/user"),
        kernel: KernelHandle { id: 7 },
        timer_out: Vec::new(),
    }
}

#[test]
fn context_selects_from_itself() {
    let ctx = context();
    let sel = ctx.select("/user/foo/bar").unwrap();
    assert_eq!(sel.anchor.uid, 1);
    assert_eq!(sel.path, "foo/bar");
    let sel = ctx.select("child").unwrap();
    assert_eq!(sel.anchor.uid, 7);
    assert_eq!(sel.path, "child");
    assert!(ctx.select("").is_err());
}

#[test]
fn schedule_repeating_job() {
    let mut ctx = context();
    let receiver = typed(9, "bar", "/user/foo/bar", 21);
    let id = ctx.schedule(100, 50, &receiver, None, 77u64);
    assert_eq!(ctx.timer_out.len(), 1);
    match &ctx.timer_out[0] {
        Job::Repeat(j) => {
            assert_eq!(j.id, id);
            assert_eq!(j.send_at, SendAt::Delay { millis: 100 });
            assert_eq!(j.interval_ms, 50);
            assert_eq!(j.receiver.uid, 9);
            assert_eq!(j.msg.tag, 21);
            assert_eq!(j.msg.msg, Some(77u64));
            assert!(!j.msg.one_shot);
        },
        _ => unreachable!(),
    }
}

#[test]
fn schedule_once_job_is_one_shot() {
    let mut ctx = context();
    let receiver = typed(9, "bar", "/user/foo/bar", 21);
    let id = ctx.schedule_once(250, &receiver, None, 78u64);
    match &ctx.timer_out[0] {
        Job::Once(j) => {
            assert_eq!(j.id, id);
            assert_eq!(j.send_at, SendAt::Delay { millis: 250 });
            assert_eq!(j.msg.msg, Some(78u64));
            assert!(j.msg.one_shot);
        },
        _ => unreachable!(),
    }
}

#[test]
fn schedule_at_absolute_time() {
    let mut ctx = context();
    let receiver = typed(9, "bar", "/user/foo/bar", 21);
    // The runtime hands absolute times over as seconds since the epoch;
    // a calendar date converts to exactly that.
    let date = chrono::DateTime::parse_from_rfc3339("2021-04-05T06:07:08Z").unwrap();
    let secs = date.timestamp() as u64;
    let id = ctx.schedule_at_time(secs, &receiver, None, 79u64);
    match &ctx.timer_out[0] {
        Job::Once(j) => {
            assert_eq!(j.id, id);
            assert_eq!(j.send_at, SendAt::EpochSecs { secs: 1617602828 });
            assert!(j.msg.one_shot);
        },
        _ => unreachable!(),
    }
}

#[test]
fn cancel_carries_the_id() {
    let mut ctx = context();
    let receiver = typed(9, "bar", "/user/foo/bar", 21);
    let id = ctx.schedule(100, 50, &receiver, None, 80u64);
    ctx.cancel_schedule(id);
    assert_eq!(ctx.timer_out.len(), 2);
    match &ctx.timer_out[1] {
        Job::Cancel(cancelled) => assert_eq!(*cancelled, id),
        _ => unreachable!(),
    }
}

#[test]
fn fresh_ids_differ() {
    let mut ctx = context();
    let receiver = typed(9, "bar", "/user/foo/bar", 21);
    let a = ctx.schedule_once(1, &receiver, None, 1u64);
    let b = ctx.schedule_once(2, &receiver, None, 2u64);
    assert_ne!(a, b);
}

#[test]
fn messages_from_one_sender_keep_their_order() {
    let mut sys: ActorSystem<Quiet> = ActorSystem::new(3);
    let a = sys.actor_of(1, "a", Quiet, Strategy::Restart).unwrap();
    sys.tell(&a, 1u64, None).unwrap();
    sys.tell(&a, 2u64, None).unwrap();
    sys.tell(&a, 3u64, None).unwrap();
    assert_eq!(sys.dequeue_user(a.basic.uid).unwrap().msg, 1);
    assert_eq!(sys.dequeue_user(a.basic.uid).unwrap().msg, 2);
    assert_eq!(sys.dequeue_user(a.basic.uid).unwrap().msg, 3);
    assert!(sys.dequeue_user(a.basic.uid).is_none());
}
