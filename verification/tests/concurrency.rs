use oauth_session::callback::{complete_callback, finish_callback, ExchangeReply};
use oauth_session::registry::StateRegistry;
use oauth_session::session::SessionStore;
use std::sync::{Arc, Mutex};
use tokio::runtime::{Builder, Runtime};

fn runtime() -> Runtime {
    Builder::new_multi_thread().worker_threads(4).build().unwrap()
}

fn accepted_reply() -> ExchangeReply {
    ExchangeReply::Answered {
        status: 200,
        body: "{\"access_token\":\"abc\",\"expires_in\":3600,\"token_type\":\"Bearer\"}".to_string(),
    }
}

#[test]
fn concurrent_consumes_of_one_token_succeed_once() {
    let runtime = runtime();
    for _ in 0..50 {
        let registry = Arc::new(Mutex::new(StateRegistry::new()));
        registry.lock().unwrap().register("shared".to_string());
        let mut handles = Vec::new();
        for _ in 0..2 {
            let registry = Arc::clone(&registry);
            handles.push(runtime.spawn(async move { registry.lock().unwrap().consume("shared") }));
        }
        let mut successes = 0;
        for handle in handles {
            if runtime.block_on(handle).unwrap() {
                successes += 1;
            }
        }
        assert_eq!(successes, 1);
        assert!(registry.lock().unwrap().is_empty());
    }
}

#[test]
fn concurrent_callbacks_get_different_sessions() {
    let runtime = runtime();
    let store = Arc::new(Mutex::new(SessionStore::new()));
    let mut handles = Vec::new();
    for _ in 0..8 {
        let store = Arc::clone(&store);
        handles.push(runtime.spawn(async move {
            let reply = accepted_reply();
            let grant = finish_callback(&mut store.lock().unwrap(), &reply).unwrap();
            grant.session_id
        }));
    }
    let mut ids: Vec<String> = Vec::new();
    for handle in handles {
        ids.push(runtime.block_on(handle).unwrap());
    }
    assert_eq!(store.lock().unwrap().len(), 8);
    ids.sort();
    ids.dedup();
    assert_eq!(ids.len(), 8);
}

#[test]
fn concurrent_insertions_with_a_colliding_generator_stay_unique() {
    let runtime = runtime();
    let store = Arc::new(Mutex::new(SessionStore::new()));
    let counter = Arc::new(Mutex::new(0u32));
    let mut handles = Vec::new();
    for _ in 0..4 {
        let store = Arc::clone(&store);
        let counter = Arc::clone(&counter);
        handles.push(runtime.spawn(async move {
            let reply = accepted_reply();
            // Every caller starts from the same candidates: 0, 1, 2, ...
            let local = Mutex::new(0u32);
            let generate = || {
                let mut next = local.lock().unwrap();
                *next += 1;
                *counter.lock().unwrap() += 1;
                format!("id{}", *next - 1)
            };
            let grant = complete_callback(&mut store.lock().unwrap(), &reply, generate, 16).unwrap();
            grant.session_id
        }));
    }
    let mut ids: Vec<String> = Vec::new();
    for handle in handles {
        ids.push(runtime.block_on(handle).unwrap());
    }
    ids.sort();
    assert_eq!(ids, vec!["id0", "id1", "id2", "id3"]);
    assert_eq!(store.lock().unwrap().len(), 4);
    // 1 + 2 + 3 + 4 candidates were asked for.
    assert_eq!(*counter.lock().unwrap(), 10);
}
