use omicron_crawler::session_pool::{SessionPool, SessionProxy};

#[test]
fn acquire_takes_the_oldest_session() {
    let mut pool = SessionPool::new(vec!["a", "b", "c"]);
    assert_eq!(pool.capacity(), 3);
    assert!(pool.all_released());
    let p = pool.acquire().unwrap();
    assert_eq!(p.session, Some("a"));
    assert_eq!(pool.available_count(), 2);
    assert!(!pool.all_released());
}

#[test]
fn released_session_goes_to_the_back() {
    let mut pool = SessionPool::new(vec![1, 2]);
    let mut first = pool.acquire().unwrap();
    pool.release(&mut first);
    assert!(first.session.is_none());
    assert!(pool.all_released());
    assert_eq!(pool.acquire().unwrap().session, Some(2));
    assert_eq!(pool.acquire().unwrap().session, Some(1));
    assert!(pool.acquire().is_none());
}

#[test]
fn empty_pool_has_nothing_to_give() {
    let mut pool: SessionPool<u8> = SessionPool::new(vec![]);
    assert!(pool.all_released());
    assert!(pool.acquire().is_none());
    let proxy = SessionProxy::new(5u8);
    assert_eq!(proxy.session, Some(5));
}

#[test]
fn waiting_and_held_sessions_always_add_up() {
    let mut pool = SessionPool::new(vec![1, 2, 3]);
    let mut held = Vec::new();
    for _ in 0..2 {
        held.push(pool.acquire().unwrap());
        assert_eq!(pool.available_count() + held.len(), 3);
    }
    let mut first = held.remove(0);
    pool.release(&mut first);
    assert_eq!(pool.available_count() + held.len(), 3);
    held.push(pool.acquire().unwrap());
    held.push(pool.acquire().unwrap());
    assert_eq!(pool.available_count() + held.len(), 3);
    let mut sessions: Vec<i32> = held.iter().map(|p| p.session.unwrap()).collect();
    sessions.sort();
    assert_eq!(sessions, vec![1, 2, 3]);
}
