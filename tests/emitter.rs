use emitter::key::{
    bytes_equal, copy_bytes, same_range, RpcSearchKey, RpcSearchKeyFilter, Script,
ScriptType,
};
use emitter::service::{ChainError, EmitterService, RegisterStep};
use emitter::table::RegistrationTable;
use emitter::tip::{TipCell, TipSnapshot};

fn script(tag: u8) -> Script {
    Script { code_hash: vec![tag; 32], hash_type: 1, args: vec![1, 2, tag] }
}

fn key(tag: u8) -> RpcSearchKey {
    RpcSearchKey { script: script(tag), script_type: ScriptType::Lock, filter: None }
}

fn header(n: u64) -> TipSnapshot {
    TipSnapshot { block_hash: [n as u8; 32], block_number: n }
}

/// Runs a whole registration against a chain whose tip is `chain_tip`;
/// returns the result and the watcher spawned, if any.
fn register(
    s: &mut EmitterService,
    k: &RpcSearchKey,
    start: u64,
    chain_tip: u64,
) -> (Result<bool, ChainError>, Option<u64>) {
    match s.begin_register(k) {
        RegisterStep::Done(r) => return (r, None),
        RegisterStep::FetchTip => {}
        other => panic!("unexpected step {:?}", other),
    }
    match s.on_tip(k, start, Ok(chain_tip)) {
        RegisterStep::Done(r) => return (r, None),
        RegisterStep::FetchHeader(n) => {
            assert_eq!(n, start);
            match s.on_header(k.duplicate(), Ok(header(n))) {
                RegisterStep::Spawn(w) => (Ok(true), Some(w)),
                RegisterStep::Done(r) => (r, None),
                other => panic!("unexpected step {:?}", other),
            }
        }
        other => panic!("unexpected step {:?}", other),
    }
}

#[test]
fn register_info_advance_delete() {
    let mut s = EmitterService::new();
    let a = key(7);
    let (r, w) = register(&mut s, &a, 100, 200);
    assert_eq!(r, Ok(true));
    let w = w.unwrap();
    let info = s.info();
    assert_eq!(info.len(), 1);
    assert_eq!(info[0].0, a);
    assert_eq!(info[0].1, header(100));
    assert!(s.publish(&a, w, header(150)));
    let info = s.info();
    assert_eq!(info[0].1.block_number, 150);
    assert!(!s.publish(&a, w, header(120)));
    assert_eq!(s.info()[0].1.block_number, 150);
    assert_eq!(s.delete(&a), Some(w));
    assert!(s.info().is_empty());
    assert!(!s.publish(&a, w, header(300)));
    assert!(s.info().is_empty());
    assert_eq!(s.tip_of(&a), None);
}

#[test]
fn register_at_or_beyond_tip_is_refused() {
    let mut s = EmitterService::new();
    let a = key(1);
    assert_eq!(register(&mut s, &a, 250, 200), (Ok(false), None));
    assert_eq!(register(&mut s, &a, 200, 200), (Ok(false), None));
    assert!(!s.is_registered(&a));
    assert!(s.info().is_empty());
}

#[test]
fn duplicate_register_only_one_succeeds() {
    let mut s = EmitterService::new();
    let a = key(3);
    // Both calls pass the first two steps before either commits.
    assert!(matches!(s.begin_register(&a), RegisterStep::FetchTip));
    assert!(matches!(s.begin_register(&a), RegisterStep::FetchTip));
    assert!(matches!(s.on_tip(&a, 50, Ok(200)), RegisterStep::FetchHeader(50)));
    assert!(matches!(s.on_tip(&a, 60, Ok(200)), RegisterStep::FetchHeader(60)));
    let first = s.on_header(a.duplicate(), Ok(header(50)));
    let second = s.on_header(a.duplicate(), Ok(header(60)));
    assert!(matches!(first, RegisterStep::Spawn(0)));
    assert!(matches!(second, RegisterStep::Done(Ok(false))));
    let info = s.info();
    assert_eq!(info.len(), 1);
    assert_eq!(info[0].1, header(50));
}

#[test]
fn register_twice_in_sequence() {
    let mut s = EmitterService::new();
    let a = key(4);
    assert_eq!(register(&mut s, &a, 10, 20).0, Ok(true));
    assert!(matches!(s.begin_register(&a), RegisterStep::Done(Ok(false))));
    assert_eq!(s.info().len(), 1);
}

#[test]
fn lookup_failures_are_errors() {
    let mut s = EmitterService::new();
    let a = key(5);
    let e = ChainError::Network("unreachable".to_string());
    assert!(matches!(s.on_tip(&a, 1, Err(e.clone())), RegisterStep::Done(Err(ChainError::Network(_)))));
    match s.on_header(a.duplicate(), Err(ChainError::NotFound(1))) {
        RegisterStep::Done(Err(ChainError::NotFound(1))) => {}
        other => panic!("unexpected step {:?}", other),
    }
    assert!(!s.is_registered(&a));
}

#[test]
fn delete_is_idempotent() {
    let mut s = EmitterService::new();
    let a = key(6);
    assert_eq!(s.delete(&a), None);
    let (_, w) = register(&mut s, &a, 1, 5);
    assert_eq!(s.delete(&a), w);
    assert_eq!(s.delete(&a), None);
}

#[test]
fn old_watcher_cannot_publish_after_reregister() {
    let mut s = EmitterService::new();
    let a = key(8);
    let (_, w1) = register(&mut s, &a, 1, 5);
    s.delete(&a);
    let (_, w2) = register(&mut s, &a, 2, 5);
    assert_ne!(w1, w2);
    assert!(!s.publish(&a, w1.unwrap(), header(4)));
    assert!(s.publish(&a, w2.unwrap(), header(4)));
    assert_eq!(s.tip_of(&a), Some(header(4)));
}

#[test]
fn keys_differ_by_filter_and_type() {
    let mut s = EmitterService::new();
    let a = key(9);
    let mut b = key(9);
    b.filter = Some(RpcSearchKeyFilter::default());
    let mut c = key(9);
    c.script_type = ScriptType::Type;
    assert!(!a.same(&b));
    assert!(!a.same(&c));
    assert!(a.same(&key(9)));
    assert_eq!(register(&mut s, &a, 1, 5).0, Ok(true));
    assert_eq!(register(&mut s, &b, 1, 5).0, Ok(true));
    assert_eq!(register(&mut s, &c, 1, 5).0, Ok(true));
    let info = s.info();
    assert_eq!(info.len(), 3);
    assert_eq!(info[1].0, b);
    assert_eq!(s.delete(&b), Some(1));
    let info = s.info();
    assert_eq!(info.len(), 2);
    assert_eq!(info[0].0, a);
    assert_eq!(info[1].0, c);
}

#[test]
fn tip_cell_publish_and_read() {
    let mut c = TipCell::create(header(10));
    assert_eq!(c.read(), header(10));
    assert!(c.publish(header(10)));
    assert!(c.publish(header(12)));
    assert_eq!(c.read(), header(12));
    assert!(!c.publish(header(11)));
    assert_eq!(c.read(), header(12));
}

#[test]
fn table_insert_remove() {
    let mut t = RegistrationTable::new();
    assert!(t.has_capacity());
    assert_eq!(t.insert_if_absent(key(1), header(3)), Some(0));
    assert_eq!(t.insert_if_absent(key(1), header(4)), None);
    assert_eq!(t.insert_if_absent(key(2), header(4)), Some(1));
    assert!(t.contains(&key(1)));
    assert_eq!(t.tip_of(&key(1)), Some(header(3)));
    assert_eq!(t.remove(&key(1)), Some(0));
    assert!(!t.contains(&key(1)));
    assert_eq!(t.snapshot_all(), vec![(key(2), header(4))]);
}

#[test]
fn into_key_without_filter_gets_empty_filter() {
    let k = key(2);
    let q = k.clone().into_key(Some((5, 9)));
    assert_eq!(q.script, script(2));
    assert_eq!(q.script_type, ScriptType::Lock);
    assert_eq!(q.with_data, None);
    assert_eq!(q.group_by_transaction, Some(true));
    let f = q.filter.unwrap();
    assert_eq!(f.script, None);
    assert_eq!(f.script_len_range, None);
    assert_eq!(f.block_range, Some((5, 9)));
}

#[test]
fn into_key_keeps_filter() {
    let mut k = key(2);
    k.filter = Some(RpcSearchKeyFilter {
        script: Some(script(3)),
        script_len_range: Some((0, 10)),
        output_data_len_range: None,
        output_capacity_range: Some((100, 200)),
    });
    let q = k.into_key(None);
    let f = q.filter.unwrap();
    assert_eq!(f.script, Some(script(3)));
    assert_eq!(f.script_len_range, Some((0, 10)));
    assert_eq!(f.output_capacity_range, Some((100, 200)));
    assert_eq!(f.block_range, None);
}

#[test]
fn byte_helpers() {
    assert!(bytes_equal(&vec![1, 2], &vec![1, 2]));
    assert!(!bytes_equal(&vec![1, 2], &vec![1, 3]));
    assert!(!bytes_equal(&vec![1], &vec![1, 3]));
    assert_eq!(copy_bytes(&vec![4, 5, 6]), vec![4, 5, 6]);
    assert!(same_range(&Some((1, 2)), &Some((1, 2))));
    assert!(!same_range(&Some((1, 2)), &None));
    let s = script(1);
    assert_eq!(s.duplicate(), s);
    assert!(!s.same(&script(2)));
}

#[test]
fn many_concurrent_registers_one_succeeds() {
    let mut s = EmitterService::new();
    let a = key(10);
    let starts = [5u64, 6, 7, 8];
    for &n in &starts {
        assert!(matches!(s.begin_register(&a), RegisterStep::FetchTip));
        assert!(matches!(s.on_tip(&a, n, Ok(100)), RegisterStep::FetchHeader(_)));
    }
    let mut spawned = 0;
    for &n in &starts {
        match s.on_header(a.duplicate(), Ok(header(n))) {
            RegisterStep::Spawn(_) => spawned += 1,
            RegisterStep::Done(Ok(false)) => {}
            other => panic!("unexpected step {:?}", other),
        }
    }
    assert_eq!(spawned, 1);
    let info = s.info();
    assert_eq!(info.len(), 1);
    assert_eq!(info[0].1, header(5));
}
