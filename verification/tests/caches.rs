use dpop_auth::cache::jti::jti_ttl;
use dpop_auth::cache::nonce::create_nonce_cache as create_windowed_nonce_cache;
use dpop_auth::cache::totp::create_totp_replay_cache as create_code_cache;
use dpop_auth::cache::{create_jti_cache, create_nonce_cache, create_totp_replay_cache, jti};
use std::sync::Arc;
use std::time::Duration;
use tokio::runtime::Runtime;
use tokio::task::JoinSet;
use uuid::Uuid;

#[test]
fn cache_totp_replay_cache_prevents_replay() {
    let cache = create_totp_replay_cache();
    let key = (Uuid::new_v4().as_u128(), "123456".to_string());

    assert!(!cache.contains_key(&key));
    cache.insert(key.clone(), ());
    assert!(cache.contains_key(&key));
}

#[test]
fn jti_absent_then_present() {
    let cache = jti::create_jti_cache(Duration::from_secs(300));
    let jti = "proof-1".to_string();

    assert!(!cache.contains_key(&jti));
    cache.insert(jti.clone(), true);
    assert!(cache.contains_key(&jti));
}

#[test]
fn jti_second_use_is_replay() {
    let cache = jti::create_jti_cache(Duration::from_secs(300));
    let jti = "proof-2".to_string();

    assert!(cache.entry(jti.clone()).or_insert(true).is_fresh());
    assert!(!cache.entry(jti.clone()).or_insert(true).is_fresh());
}

#[test]
fn jti_concurrent_unique_all_fresh() {
    let fresh = Runtime::new().unwrap().block_on(async {
        let cache = Arc::new(jti::create_jti_cache(Duration::from_secs(300)));
        let mut set = JoinSet::new();

        for i in 0..100 {
            let c = cache.clone();
            set.spawn(async move { c.entry(format!("proof-{i}")).or_insert(true).is_fresh() });
        }

        let mut fresh: i32 = 0;
        while let Some(res) = set.join_next().await {
            if res.unwrap() {
                fresh += 1;
            }
        }
        fresh
    });
    assert_eq!(fresh, 100);
}

#[test]
fn nonce_absent_then_present() {
    let cache = create_windowed_nonce_cache();
    let nonce = "nonce-1".to_string();

    assert!(!cache.contains_key(&nonce));
    cache.insert(nonce.clone(), true);
    assert!(cache.contains_key(&nonce));
}

#[test]
fn nonce_survives_reuse_within_window() {
    let cache = create_windowed_nonce_cache();
    let nonce = "nonce-2".to_string();

    cache.insert(nonce.clone(), true);
    for _ in 0..10 {
        assert!(cache.contains_key(&nonce));
    }

    cache.remove(&nonce);
    assert!(!cache.contains_key(&nonce));
}

#[test]
fn totp_totp_replay_cache_prevents_replay() {
    let cache = create_code_cache();
    let key = (Uuid::new_v4().as_u128(), "123456".to_string());

    assert!(!cache.contains_key(&key));
    cache.insert(key.clone(), ());
    assert!(cache.contains_key(&key));
}

#[test]
fn totp_key_is_user_and_code() {
    let cache = create_code_cache();
    let (user_a, user_b) = (Uuid::new_v4().as_u128(), Uuid::new_v4().as_u128());

    cache.insert((user_a, "123456".to_string()), ());

    assert!(cache.contains_key(&(user_a, "123456".to_string())));
    assert!(!cache.contains_key(&(user_a, "654321".to_string())));
    assert!(!cache.contains_key(&(user_b, "123456".to_string())));
}

#[test]
fn jti_cache_insert_and_contains() {
    let cache = create_jti_cache();
    cache.insert("test-jti".into(), true);
    assert!(cache.contains_key("test-jti"));
}

#[test]
fn nonce_cache_insert_and_contains() {
    let cache = create_nonce_cache();
    cache.insert("test-nonce".into(), true);
    assert!(cache.contains_key("test-nonce"));
}

#[test]
fn entry_or_insert_is_atomic_concurrent() {
    let fresh = Runtime::new().unwrap().block_on(async {
        let cache = Arc::new(create_jti_cache());
        let jti = "concurrent-test-jti".to_string();
        let mut set = JoinSet::new();

        for _ in 0..100 {
            let c = cache.clone();
            let j = jti.clone();

            set.spawn(async move { c.entry(j).or_insert_with(|| true).is_fresh() });
        }

        let mut fresh: i32 = 0;
        while let Some(res) = set.join_next().await {
            if res.unwrap() {
                fresh += 1;
            }
        }
        fresh
    });

    assert_eq!(fresh, 1, "exactly one insertion is fresh");
}

#[test]
fn caches_keep_entries_for_their_window() {
    let policy = create_jti_cache().policy();
    assert_eq!(policy.time_to_live(), Some(Duration::from_secs(125)));
    assert_eq!(policy.max_capacity(), Some(100_000));

    let policy = create_nonce_cache().policy();
    assert_eq!(policy.time_to_live(), Some(Duration::from_secs(300)));
    assert_eq!(policy.max_capacity(), Some(100_000));

    let policy = create_totp_replay_cache().policy();
    assert_eq!(policy.time_to_live(), Some(Duration::from_secs(90)));
    assert_eq!(policy.max_capacity(), Some(100_000));

    let policy = jti::create_jti_cache(Duration::from_millis(1_500)).policy();
    assert_eq!(policy.time_to_live(), Some(Duration::from_millis(1_500)));
}

#[test]
fn jti_outlives_both_sides_of_the_skew() {
    let ttl = jti_ttl(Duration::from_secs(60));
    assert_eq!(ttl.as_secs(), 125);
    assert_eq!(ttl.subsec_nanos(), 0);

    let ttl = jti_ttl(Duration::from_millis(1_750));
    assert_eq!(ttl.as_secs(), 7);
    assert_eq!(ttl.subsec_nanos(), 0);

    let ttl = jti_ttl(Duration::from_secs(u64::MAX));
    assert_eq!(ttl.as_secs(), 31_536_000_000);
    assert_eq!(ttl.subsec_nanos(), 0);
}
