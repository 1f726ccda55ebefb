use currency::cache::RateCache;
use currency::feed::{receive, Document, Entry, RemoteFetchError, Transfer};
use currency::record::{Record, Scalar};
use currency::snapshot::Snapshot;
use std::sync::Mutex;

fn rate(code: &str, rate: &str) -> Record {
    let mut record = Record::new();
    record.insert("code".to_string(), Scalar::Text(code.to_string()));
    record.insert("rate".to_string(), Scalar::Number(rate.to_string()));
    record
}

fn rates() -> Snapshot {
    Snapshot::new(vec![rate("USD", "1.0"), rate("EUR", "0.9")])
}

fn other_rates() -> Snapshot {
    Snapshot::new(vec![rate("GBP", "0.8")])
}

fn good_transfer() -> Transfer {
    Transfer::Completed {
        status: 200,
        body: Some(Document {
            entries: vec![
                Entry { key: "usd".to_string(), record: rate("USD", "1.0") },
                Entry { key: "eur".to_string(), record: rate("EUR", "0.9") },
            ],
        }),
    }
}

#[test]
fn new_cache_is_empty() {
    let cache = RateCache::new();
    assert_eq!(cache.snapshot(), None);
}

#[test]
fn get_snapshot_fetches_once() {
    let mut cache = RateCache::new();
    let mut fetches = 0;
    for _ in 0..5 {
        let reply = cache.get_snapshot(|| {
            fetches += 1;
            good_transfer()
        });
        assert_eq!(reply, Ok(&rates()));
    }
    assert_eq!(fetches, 1);
    assert_eq!(cache.snapshot(), Some(&rates()));
}

#[test]
fn get_snapshot_keeps_first_snapshot() {
    let mut cache = RateCache::new();
    assert_eq!(cache.get_snapshot(good_transfer), Ok(&rates()));
    let later = cache.get_snapshot(|| Transfer::Completed {
        status: 200,
        body: Some(Document {
            entries: vec![Entry { key: "gbp".to_string(), record: rate("GBP", "0.8") }],
        }),
    });
    assert_eq!(later, Ok(&rates()));
    assert_eq!(cache.get_snapshot(|| Transfer::Failed), Ok(&rates()));
}

#[test]
fn get_snapshot_shared_by_callers_fetches_once() {
    let cache = Mutex::new(RateCache::new());
    let fetches = Mutex::new(0);
    let callers = 8;
    let mut seen = Vec::new();
    for _ in 0..callers {
        let mut held = cache.lock().unwrap();
        let reply = held.get_snapshot(|| {
            *fetches.lock().unwrap() += 1;
            good_transfer()
        });
        seen.push(reply.unwrap().clone());
    }
    assert_eq!(*fetches.lock().unwrap(), 1);
    assert_eq!(seen.len(), callers);
    assert!(seen.iter().all(|snapshot| *snapshot == rates()));
}

#[test]
fn get_snapshot_retries_after_failure() {
    let mut cache = RateCache::new();
    let mut fetches = 0;
    let first = cache.get_snapshot(|| {
        fetches += 1;
        Transfer::Failed
    });
    assert_eq!(first, Err(RemoteFetchError::Network));
    assert_eq!(cache.snapshot(), None);
    let second = cache.get_snapshot(|| {
        fetches += 1;
        good_transfer()
    });
    assert_eq!(second, Ok(&rates()));
    assert_eq!(fetches, 2);
}

#[test]
fn get_snapshot_hands_back_each_error() {
    let mut cache = RateCache::new();
    assert_eq!(
        cache.get_snapshot(|| Transfer::Completed { status: 500, body: None }),
        Err(RemoteFetchError::Status(500))
    );
    assert_eq!(
        cache.get_snapshot(|| Transfer::Completed { status: 200, body: None }),
        Err(RemoteFetchError::Decode)
    );
    assert_eq!(cache.get_snapshot(|| Transfer::Failed), Err(RemoteFetchError::Network));
    assert_eq!(cache.snapshot(), None);
}

#[test]
fn get_snapshot_keeps_an_empty_snapshot() {
    let mut cache = RateCache::new();
    let mut fetches = 0;
    for _ in 0..3 {
        let reply = cache.get_snapshot(|| {
            fetches += 1;
            Transfer::Completed { status: 200, body: Some(Document { entries: Vec::new() }) }
        });
        assert_eq!(reply.map(|snapshot| snapshot.len()), Ok(0));
    }
    assert_eq!(fetches, 1);
}

#[test]
fn store_fills_an_empty_cache() {
    let mut cache = RateCache::new();
    assert_eq!(cache.store(Ok(rates())), Ok(&rates()));
    assert_eq!(cache.snapshot(), Some(&rates()));
}

#[test]
fn store_never_keeps_an_error() {
    let mut cache = RateCache::new();
    assert_eq!(cache.store(Err(RemoteFetchError::Decode)), Err(RemoteFetchError::Decode));
    assert_eq!(cache.snapshot(), None);
    assert_eq!(cache.store(Err(RemoteFetchError::Status(404))), Err(RemoteFetchError::Status(404)));
    assert_eq!(cache.snapshot(), None);
    assert_eq!(cache.store(Ok(rates())), Ok(&rates()));
}

#[test]
fn store_never_replaces_a_snapshot() {
    let mut cache = RateCache::new();
    assert_eq!(cache.store(Ok(rates())), Ok(&rates()));
    assert_eq!(cache.store(Ok(other_rates())), Ok(&rates()));
    assert_eq!(cache.store(Err(RemoteFetchError::Network)), Ok(&rates()));
    assert_eq!(cache.snapshot(), Some(&rates()));
}

#[test]
fn snapshot_then_store_is_one_turn() {
    let mut cache = RateCache::new();
    let mut fetches = 0;
    for _ in 0..4 {
        if cache.snapshot().is_none() {
            fetches += 1;
            let outcome = receive(good_transfer());
            assert!(cache.store(outcome).is_ok());
        }
        assert_eq!(cache.snapshot(), Some(&rates()));
    }
    assert_eq!(fetches, 1);
}
