use std::sync::{Arc, Mutex};

use actor_core::cell::Actor;
use actor_core::msg::{CreateError, Strategy, SystemCmd, SystemMsg};
use actor_core::system::{ActorSystem, Effect};

struct CountingActor {
    stops: Arc<Mutex<u32>>,
}

impl Actor for CountingActor {
    type Msg = u64;

    fn post_stop(&mut self) {
        *self.stops.lock().unwrap() += 1;
    }
}

fn counter() -> Arc<Mutex<u32>> {
    Arc::new(Mutex::new(0))
}

fn actor(stops: &Arc<Mutex<u32>>) -> CountingActor {
    CountingActor { stops: Arc::clone(stops) }
}

const USER_ROOT: u64 = 1;

fn count_terminated(sys: &ActorSystem<CountingActor>, uid: u64) -> usize {
    sys.effects
        .iter()
        .filter(|e| matches!(e, Effect::KernelTerminated { uid: u } if *u == uid))
        .count()
}

fn count_restarted(sys: &ActorSystem<CountingActor>, uid: u64) -> usize {
    sys.effects
        .iter()
        .filter(|e| matches!(e, Effect::KernelRestarted { uid: u } if *u == uid))
        .count()
}

fn terminated_position(sys: &ActorSystem<CountingActor>, uid: u64) -> usize {
    sys.effects
        .iter()
        .position(|e| matches!(e, Effect::KernelTerminated { uid: u } if *u == uid))
        .unwrap()
}

#[test]
fn leaf_stop() {
    let mut sys: ActorSystem<CountingActor> = ActorSystem::new(7);
    let p_stops = counter();
    let c_stops = counter();
    let p = sys.actor_of(USER_ROOT, "p", actor(&p_stops), Strategy::Restart).unwrap();
    let c = sys.actor_of(p.basic.uid, "c", actor(&c_stops), Strategy::Restart).unwrap();

    sys.sys_tell(c.basic.uid, SystemMsg::Cmd(SystemCmd::Stop)).unwrap();
    assert!(sys.run(100));

    assert_eq!(*c_stops.lock().unwrap(), 1);
    assert_eq!(*p_stops.lock().unwrap(), 0);
    assert_eq!(count_terminated(&sys, c.basic.uid), 1);

    let pi = sys.find(p.basic.uid).unwrap();
    assert!(!sys.slots[pi].cell.cell.has_children());
    assert!(!sys.slots[pi].cell.cell.is_terminating);

    let ci = sys.find(c.basic.uid).unwrap();
    assert!(sys.slots[ci].cell.cell.is_terminating);
    assert!(sys.slots[ci].stopped);
}

#[test]
fn recursive_stop() {
    let mut sys: ActorSystem<CountingActor> = ActorSystem::new(7);
    let a_stops = counter();
    let b_stops = counter();
    let c_stops = counter();
    let a = sys.actor_of(USER_ROOT, "a", actor(&a_stops), Strategy::Restart).unwrap();
    let b = sys.actor_of(a.basic.uid, "b", actor(&b_stops), Strategy::Restart).unwrap();
    let c = sys.actor_of(b.basic.uid, "c", actor(&c_stops), Strategy::Restart).unwrap();

    sys.sys_tell(a.basic.uid, SystemMsg::Cmd(SystemCmd::Stop)).unwrap();
    assert!(sys.run(100));

    assert_eq!(*a_stops.lock().unwrap(), 1);
    assert_eq!(*b_stops.lock().unwrap(), 1);
    assert_eq!(*c_stops.lock().unwrap(), 1);
    assert_eq!(count_terminated(&sys, a.basic.uid), 1);
    assert_eq!(count_terminated(&sys, b.basic.uid), 1);
    assert_eq!(count_terminated(&sys, c.basic.uid), 1);

    let pc = terminated_position(&sys, c.basic.uid);
    let pb = terminated_position(&sys, b.basic.uid);
    let pa = terminated_position(&sys, a.basic.uid);
    assert!(pc < pb && pb < pa);
}

#[test]
fn restart_with_children() {
    let mut sys: ActorSystem<CountingActor> = ActorSystem::new(7);
    let r_stops = counter();
    let x_stops = counter();
    let y_stops = counter();
    let r = sys.actor_of(USER_ROOT, "r", actor(&r_stops), Strategy::Restart).unwrap();
    let x = sys.actor_of(r.basic.uid, "x", actor(&x_stops), Strategy::Restart).unwrap();
    let y = sys.actor_of(r.basic.uid, "y", actor(&y_stops), Strategy::Restart).unwrap();

    sys.sys_tell(r.basic.uid, SystemMsg::Cmd(SystemCmd::Restart)).unwrap();
    assert!(sys.run(100));

    assert_eq!(*x_stops.lock().unwrap(), 1);
    assert_eq!(*y_stops.lock().unwrap(), 1);
    assert_eq!(count_terminated(&sys, x.basic.uid), 1);
    assert_eq!(count_terminated(&sys, y.basic.uid), 1);
    assert_eq!(count_restarted(&sys, r.basic.uid), 1);
    assert_eq!(*r_stops.lock().unwrap(), 0);

    let ri = sys.find(r.basic.uid).unwrap();
    assert!(!sys.slots[ri].cell.cell.is_restarting);
    assert!(!sys.slots[ri].cell.cell.is_terminating);
}

#[test]
fn escalation() {
    let mut sys: ActorSystem<CountingActor> = ActorSystem::new(7);
    let gp_stops = counter();
    let p_stops = counter();
    let g_stops = counter();
    let gp = sys.actor_of(USER_ROOT, "gp", actor(&gp_stops), Strategy::Restart).unwrap();
    let p = sys.actor_of(gp.basic.uid, "p", actor(&p_stops), Strategy::Escalate).unwrap();
    let g = sys.actor_of(p.basic.uid, "g", actor(&g_stops), Strategy::Restart).unwrap();

    // The kernel surfaces a failure of the grandchild to its parent.
    sys.sys_tell(p.basic.uid, SystemMsg::Failed(g.basic.clone())).unwrap();
    assert!(sys.run(100));

    // The parent escalated; the grandparent restarted the parent, which
    // stopped its child before the kernel rebuilds it.
    assert_eq!(*g_stops.lock().unwrap(), 1);
    assert_eq!(count_terminated(&sys, g.basic.uid), 1);
    assert_eq!(count_restarted(&sys, p.basic.uid), 1);
    assert_eq!(count_restarted(&sys, gp.basic.uid), 0);
    assert_eq!(*gp_stops.lock().unwrap(), 0);
}

#[test]
fn escalation_at_root_is_terminal() {
    let mut sys: ActorSystem<CountingActor> = ActorSystem::new(7);
    // The root (uid 0) has no parent: a failure notification handled with
    // the Escalate strategy there is a terminal system failure.
    let ri = sys.find(0).unwrap();
    let stranger = sys.user_root.clone();
    let acts = sys.slots[ri].cell.handle_failure(stranger, Strategy::Escalate);
    for act in acts {
        sys.apply_action(0, act);
    }
    assert!(sys.is_shutting_down);
    assert!(sys.effects.iter().any(|e| matches!(e, Effect::SystemFailure { uid: 0 })));
}

#[test]
fn stop_enqueues_the_command() {
    let mut sys: ActorSystem<CountingActor> = ActorSystem::new(7);
    let stops = counter();
    let s = sys.actor_of(USER_ROOT, "s", actor(&stops), Strategy::Restart).unwrap();
    sys.stop(&s.basic).unwrap();
    assert!(sys.run(100));
    assert_eq!(*stops.lock().unwrap(), 1);
    assert_eq!(count_terminated(&sys, s.basic.uid), 1);
    // A stopped cell's system mailbox is closed: the command comes back.
    let back = sys.stop(&s.basic);
    assert!(back.is_err());
    assert!(matches!(back.err().unwrap().0.msg, SystemMsg::Cmd(SystemCmd::Stop)));
}

#[test]
fn dead_lettering() {
    let mut sys: ActorSystem<CountingActor> = ActorSystem::new(7);
    let d_stops = counter();
    let d = sys.actor_of(USER_ROOT, "d", actor(&d_stops), Strategy::Restart).unwrap();
    sys.sys_tell(d.basic.uid, SystemMsg::Cmd(SystemCmd::Stop)).unwrap();
    assert!(sys.run(100));

    let before = sys.effects.len();
    let r = sys.tell(&d, 42u64, None);
    assert!(r.is_err());
    let e = r.err().unwrap();
    assert_eq!(e.0.msg, 42u64);

    let new_effects: Vec<_> = sys.effects[before..]
        .iter()
        .filter(|e| matches!(e, Effect::DeadLetter(_)))
        .collect();
    assert_eq!(new_effects.len(), 1);
    match new_effects[0] {
        Effect::DeadLetter(dl) => {
            assert_eq!(dl.topic, "dead_letter");
            assert_eq!(dl.msg, "42");
            assert_eq!(dl.recipient.uid, d.basic.uid);
            assert!(dl.sender.is_none());
        },
        _ => unreachable!(),
    }
}

#[test]
fn delivered_message_is_not_dead_lettered() {
    let mut sys: ActorSystem<CountingActor> = ActorSystem::new(7);
    let e_stops = counter();
    let e = sys.actor_of(USER_ROOT, "e", actor(&e_stops), Strategy::Restart).unwrap();
    let before = sys.effects.len();
    sys.tell(&e, 5u64, None).unwrap();
    assert_eq!(sys.effects.len(), before);
    let got = sys.dequeue_user(e.basic.uid).unwrap();
    assert_eq!(got.msg, 5u64);
}

#[test]
fn stop_drains_pending_messages_to_dead_letters() {
    // A message accepted before the stop either delivers or shows up as a
    // dead letter; it is never silently dropped.
    let mut sys: ActorSystem<CountingActor> = ActorSystem::new(7);
    let f_stops = counter();
    let f = sys.actor_of(USER_ROOT, "f", actor(&f_stops), Strategy::Restart).unwrap();
    sys.tell(&f, 11u64, None).unwrap();
    sys.tell(&f, 12u64, None).unwrap();
    sys.sys_tell(f.basic.uid, SystemMsg::Cmd(SystemCmd::Stop)).unwrap();
    assert!(sys.run(100));
    let dead: Vec<String> = sys
        .effects
        .iter()
        .filter_map(|e| match e {
            Effect::DeadLetter(dl) => Some(dl.msg.clone()),
            _ => None,
        })
        .collect();
    assert_eq!(dead, vec!["11".to_string(), "12".to_string()]);
}

#[test]
fn system_messages_before_user_messages() {
    let mut sys: ActorSystem<CountingActor> = ActorSystem::new(7);
    let a_stops = counter();
    let a = sys.actor_of(USER_ROOT, "a", actor(&a_stops), Strategy::Restart).unwrap();
    sys.tell(&a, 3u64, None).unwrap();
    // A harmless notification from a stranger: death watch ignores it.
    let stranger = sys.temp_root.clone();
    sys.sys_tell(a.basic.uid, SystemMsg::Terminated(stranger)).unwrap();

    // While a system message is pending, no user message is handed out.
    assert!(sys.dequeue_user(a.basic.uid).is_none());
    assert!(sys.process_one(a.basic.uid));
    let got = sys.dequeue_user(a.basic.uid).unwrap();
    assert_eq!(got.msg, 3u64);
}

#[test]
fn restarting_cell_defers_user_messages() {
    let mut sys: ActorSystem<CountingActor> = ActorSystem::new(7);
    let r_stops = counter();
    let x_stops = counter();
    let r = sys.actor_of(USER_ROOT, "r", actor(&r_stops), Strategy::Restart).unwrap();
    let _x = sys.actor_of(r.basic.uid, "x", actor(&x_stops), Strategy::Restart).unwrap();

    sys.tell(&r, 8u64, None).unwrap();
    sys.sys_tell(r.basic.uid, SystemMsg::Cmd(SystemCmd::Restart)).unwrap();
    assert!(sys.process_one(r.basic.uid));

    let ri = sys.find(r.basic.uid).unwrap();
    assert!(sys.slots[ri].cell.cell.is_restarting);
    // The restarting flag must fall before the cell next dequeues a user
    // message.
    assert!(sys.dequeue_user(r.basic.uid).is_none());

    assert!(sys.run(100));
    let ri = sys.find(r.basic.uid).unwrap();
    assert!(!sys.slots[ri].cell.cell.is_restarting);
    let got = sys.dequeue_user(r.basic.uid).unwrap();
    assert_eq!(got.msg, 8u64);
}

#[test]
fn terminating_cell_spawns_no_children() {
    let mut sys: ActorSystem<CountingActor> = ActorSystem::new(7);
    let p_stops = counter();
    let c_stops = counter();
    let k_stops = counter();
    let p = sys.actor_of(USER_ROOT, "p", actor(&p_stops), Strategy::Restart).unwrap();
    let _c = sys.actor_of(p.basic.uid, "c", actor(&c_stops), Strategy::Restart).unwrap();
    // Begin termination; the child keeps the parent in TERMINATING.
    sys.sys_tell(p.basic.uid, SystemMsg::Cmd(SystemCmd::Stop)).unwrap();
    assert!(sys.process_one(p.basic.uid));
    let pi = sys.find(p.basic.uid).unwrap();
    assert!(sys.slots[pi].cell.cell.is_terminating);

    let r = sys.actor_of(p.basic.uid, "k", actor(&k_stops), Strategy::Restart);
    assert!(matches!(r, Err(CreateError::SystemDown)));
}

#[test]
fn create_errors() {
    let mut sys: ActorSystem<CountingActor> = ActorSystem::new(7);
    let stops = counter();
    assert!(matches!(
        sys.actor_of(USER_ROOT, "", actor(&stops), Strategy::Restart),
        Err(CreateError::InvalidName)
    ));
    assert!(matches!(
        sys.actor_of(USER_ROOT, "a/b", actor(&stops), Strategy::Restart),
        Err(CreateError::InvalidName)
    ));
    sys.actor_of(USER_ROOT, "dup", actor(&stops), Strategy::Restart).unwrap();
    assert!(matches!(
        sys.actor_of(USER_ROOT, "dup", actor(&stops), Strategy::Restart),
        Err(CreateError::DuplicateName)
    ));
    sys.shutdown();
    assert!(matches!(
        sys.actor_of(USER_ROOT, "late", actor(&stops), Strategy::Restart),
        Err(CreateError::SystemDown)
    ));
}

#[test]
fn spawn_builds_path_and_registers_child() {
    let mut sys: ActorSystem<CountingActor> = ActorSystem::new(7);
    let stops = counter();
    let foo = sys.actor_of(USER_ROOT, "foo", actor(&stops), Strategy::Restart).unwrap();
    assert_eq!(foo.path(), "/user/foo");
    assert_eq!(foo.name(), "foo");
    let bar = sys.actor_of(foo.basic.uid, "bar", actor(&stops), Strategy::Restart).unwrap();
    assert_eq!(bar.path(), "/user/foo/bar");
    assert!(sys.is_user(foo.basic.uid));
    assert!(!sys.is_user(bar.basic.uid));
    let fi = sys.find(foo.basic.uid).unwrap();
    assert!(sys.slots[fi].cell.cell.is_child(&bar.basic));
    assert!(sys.slots[fi].cell.cell.has_children());
}

#[test]
fn tmp_actor_spawns_under_temp_root() {
    let mut sys: ActorSystem<CountingActor> = ActorSystem::new(7);
    let stops = counter();
    let t = sys.tmp_actor_of(actor(&stops)).unwrap();
    let ti = sys.find(t.basic.uid).unwrap();
    let parent = sys.slots[ti].cell.cell.parent.as_ref().unwrap();
    assert_eq!(parent.uid, sys.temp_root.uid);
    assert!(!t.name().is_empty());
    assert!(t.name().chars().all(|c| c.is_ascii_digit()));
}

#[test]
fn system_sends_to_stopped_actor_fail_without_dead_letter() {
    let mut sys: ActorSystem<CountingActor> = ActorSystem::new(7);
    let stops = counter();
    let s = sys.actor_of(USER_ROOT, "s", actor(&stops), Strategy::Restart).unwrap();
    sys.sys_tell(s.basic.uid, SystemMsg::Cmd(SystemCmd::Stop)).unwrap();
    assert!(sys.run(100));
    let before = sys.effects.len();
    // A lost supervision signal surfaces to the caller and is never
    // redirected to the dead-letter topic.
    assert!(sys.sys_tell(s.basic.uid, SystemMsg::Cmd(SystemCmd::Stop)).is_err());
    assert_eq!(sys.effects.len(), before);
}
