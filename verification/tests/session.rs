use password_bot::session::{Phase, SessionStore};

#[test]
fn create_get_remove_round_trip() {
    let mut st = SessionStore::new();
    assert!(st.get(1).is_none());
    assert_eq!(st.len(), 0);
    st.create(1, 1000);
    let s = st.get(1).unwrap();
    assert!(matches!(s.phase, Phase::AwaitingLength));
    assert_eq!(s.length, 0);
    assert!(!s.lowercase && !s.uppercase && !s.numbers);
    assert_eq!(s.expires_at, 1300);
    assert_eq!(st.len(), 1);
    st.remove(1);
    assert!(st.get(1).is_none());
    st.remove(1);
    assert!(st.get(1).is_none());
    assert_eq!(st.len(), 0);
}

#[test]
fn create_overwrites_prior_session() {
    let mut st = SessionStore::new();
    st.create(5, 100);
    st.create(5, 900);
    assert_eq!(st.len(), 1);
    assert_eq!(st.get(5).unwrap().expires_at, 1200);
}

#[test]
fn sweep_removes_expired_sessions_only() {
    let mut st = SessionStore::new();
    st.create(1, 10);
    st.create(2, 1000);
    st.create(3, 0);
    st.sweep(310);
    assert!(st.get(1).is_none(), "session expiring exactly now must go");
    assert!(st.get(2).is_some(), "live session must stay");
    assert!(st.get(3).is_none(), "long expired session must go");
    assert_eq!(st.len(), 1);
}

#[test]
fn sweep_on_empty_store_is_a_no_op() {
    let mut st = SessionStore::new();
    st.sweep(12345);
    assert_eq!(st.len(), 0);
}
