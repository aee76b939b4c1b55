use mongodb::bson::Document;
use mongodb::options::ClientOptions;
use mongodb::{Client, Database};
use rs_mongo_stream::callbacks::Handler;
use rs_mongo_stream::{Event, MongoStream};
use std::future::Future;
use std::pin::Pin;
use std::sync::Arc;
use tokio::runtime::Runtime;
use tokio::sync::mpsc;

type CallbackFn = dyn Fn(&Document) -> Pin<Box<dyn Future<Output = ()> + Send>> + Send + Sync;

/// A database handle for a local server; no connection is made until a
/// collection is used.
fn setup_test_db() -> (Runtime, Database) {
    let rt = Runtime::new().unwrap();
    let db = rt.block_on(async {
        let client_options = ClientOptions::parse("mongodb://localhost:27017")
            .await
            .unwrap();
        let client = Client::with_options(client_options).unwrap();
        client.database("test_db")
    });
    (rt, db)
}

fn close_signal() -> mpsc::Sender<()> {
    let (tx, _rx) = mpsc::channel::<()>(1);
    tx
}

#[test]
fn test_mongo_stream_creation() {
    let (_rt, db) = setup_test_db();
    let mongo_stream: MongoStream<Arc<CallbackFn>> = MongoStream::new(db.clone());

    assert_eq!(mongo_stream.registered_collection_count(), 0);
    assert_eq!(mongo_stream.active_stream_count(), 0);
    assert_eq!(mongo_stream.database().name(), "test_db");
}

#[test]
fn test_add_callback() {
    let (rt, db) = setup_test_db();
    let mut mongo_stream: MongoStream<Arc<CallbackFn>> = MongoStream::new(db);

    let (tx, mut rx) = mpsc::channel(1);
    let callback: Arc<CallbackFn> = Arc::new(move |_doc: &Document| {
        let tx = tx.clone();
        Box::pin(async move {
            let _ = tx.send(()).await;
        }) as Pin<Box<dyn Future<Output = ()> + Send>>
    });
    mongo_stream.add_callback("test_collection", Event::Insert, callback);

    let callbacks = mongo_stream.get_collection_callbacks("test_collection");
    assert!(callbacks.contains_key(&Event::Insert));

    // Execute the callback
    if let Some(Handler::Custom(callback)) = callbacks.get(&Event::Insert) {
        let doc = Document::new();
        rt.block_on(callback(&doc));
        assert!(rt.block_on(rx.recv()).is_some());
    } else {
        panic!("the registered callback is missing");
    }
}

#[test]
fn test_start_and_close_stream() {
    let (_rt, db) = setup_test_db();
    let mut mongo_stream: MongoStream<Arc<CallbackFn>> = MongoStream::new(db);

    // Test starting stream
    assert!(mongo_stream.start_stream("test_collection", close_signal()).is_ok());
    assert!(mongo_stream.is_stream_active("test_collection"));

    // Test closing stream
    assert!(mongo_stream.close_stream("test_collection").is_some());
    assert!(!mongo_stream.is_stream_active("test_collection"));
}

#[test]
fn test_close_all_streams() {
    let (_rt, db) = setup_test_db();
    let mut mongo_stream: MongoStream<Arc<CallbackFn>> = MongoStream::new(db);

    mongo_stream.start_stream("collection1", close_signal()).unwrap();
    mongo_stream.start_stream("collection2", close_signal()).unwrap();

    let closed = mongo_stream.close_all_streams();
    assert_eq!(closed.len(), 2);
    assert_eq!(mongo_stream.active_stream_count(), 0);
}

#[test]
fn test_default_callbacks() {
    let (_rt, db) = setup_test_db();
    let mongo_stream: MongoStream<Arc<CallbackFn>> = MongoStream::new(db);

    let callbacks = mongo_stream.get_collection_callbacks("test_collection");
    assert_eq!(callbacks.len(), 3);
    assert!(callbacks.contains_key(&Event::Insert));
    assert!(callbacks.contains_key(&Event::Update));
    assert!(callbacks.contains_key(&Event::Delete));
}

#[test]
fn test_double_start_error() {
    let (_rt, db) = setup_test_db();
    let mut mongo_stream: MongoStream<Arc<CallbackFn>> = MongoStream::new(db);

    mongo_stream.start_stream("test_collection", close_signal()).unwrap();
    let result = mongo_stream.start_stream("test_collection", close_signal());

    assert!(matches!(result, Err(_)));
}

// Tests with plain values standing for the callbacks.

#[test]
fn double_start_message_names_collection() {
    let (_rt, db) = setup_test_db();
    let mut mongo_stream: MongoStream<u32> = MongoStream::new(db);
    mongo_stream.start_stream("users", close_signal()).unwrap();
    match mongo_stream.start_stream("users", close_signal()) {
        Err(e) => assert_eq!(e.message(), "Stream for collection 'users' is already running"),
        Ok(_) => panic!("second start must fail"),
    }
    assert_eq!(mongo_stream.active_stream_count(), 1);
}

#[test]
fn added_callback_replaces_only_its_event() {
    let (_rt, db) = setup_test_db();
    let mut mongo_stream: MongoStream<u32> = MongoStream::new(db);
    mongo_stream.add_callback("users", Event::Update, 7);
    let callbacks = mongo_stream.get_collection_callbacks("users");
    assert_eq!(callbacks.len(), 3);
    assert!(matches!(callbacks.get(&Event::Update), Some(Handler::Custom(7))));
    assert!(matches!(callbacks.get(&Event::Insert), Some(Handler::Default)));
    assert!(matches!(callbacks.get(&Event::Delete), Some(Handler::Default)));

    // A later callback for the same event replaces the earlier one.
    mongo_stream.add_callback("users", Event::Update, 8);
    mongo_stream.add_callback("users", Event::Delete, 9);
    let callbacks = mongo_stream.get_collection_callbacks("users");
    assert!(matches!(callbacks.get(&Event::Update), Some(Handler::Custom(8))));
    assert!(matches!(callbacks.get(&Event::Delete), Some(Handler::Custom(9))));
    assert!(matches!(callbacks.get(&Event::Insert), Some(Handler::Default)));
    assert_eq!(mongo_stream.registered_collection_count(), 1);

    // Other collections keep the default handlers.
    let others = mongo_stream.get_collection_callbacks("orders");
    assert!(matches!(others.get(&Event::Update), Some(Handler::Default)));
}

#[test]
fn start_hands_out_registered_callbacks() {
    let (_rt, db) = setup_test_db();
    let mut mongo_stream: MongoStream<u32> = MongoStream::new(db);
    mongo_stream.add_callback("users", Event::Delete, 3);
    let callbacks = mongo_stream.start_stream("users", close_signal()).unwrap();
    assert!(matches!(callbacks.get(&Event::Delete), Some(Handler::Custom(3))));
    assert!(matches!(callbacks.get(&Event::Insert), Some(Handler::Default)));
}

#[test]
fn close_hands_back_the_start_signal() {
    let (rt, db) = setup_test_db();
    let mut mongo_stream: MongoStream<u32> = MongoStream::new(db);
    let (tx, mut rx) = mpsc::channel::<()>(1);
    mongo_stream.start_stream("users", tx).unwrap();
    let signal = mongo_stream.close_stream("users").expect("the stream was running");
    rt.block_on(async {
        signal.send(()).await.unwrap();
        assert!(rx.recv().await.is_some());
    });
    // Closing again finds nothing, and the stream can be started anew.
    assert!(mongo_stream.close_stream("users").is_none());
    assert!(mongo_stream.start_stream("users", close_signal()).is_ok());
}

#[test]
fn close_of_unknown_stream_is_none() {
    let (_rt, db) = setup_test_db();
    let mut mongo_stream: MongoStream<u32> = MongoStream::new(db);
    mongo_stream.start_stream("users", close_signal()).unwrap();
    assert!(mongo_stream.close_stream("orders").is_none());
    assert!(mongo_stream.is_stream_active("users"));
}

#[test]
fn close_all_lists_each_stream_once() {
    let (_rt, db) = setup_test_db();
    let mut mongo_stream: MongoStream<u32> = MongoStream::new(db);
    mongo_stream.start_stream("a", close_signal()).unwrap();
    mongo_stream.start_stream("b", close_signal()).unwrap();
    mongo_stream.start_stream("c", close_signal()).unwrap();
    assert!(mongo_stream.close_stream("b").is_some());
    let closed = mongo_stream.close_all_streams();
    let mut names: Vec<String> = closed.into_iter().map(|(name, _)| name).collect();
    names.sort();
    assert_eq!(names, vec!["a".to_string(), "c".to_string()]);
    assert_eq!(mongo_stream.close_all_streams().len(), 0);
}

#[test]
fn streams_leave_callbacks_alone() {
    let (_rt, db) = setup_test_db();
    let mut mongo_stream: MongoStream<u32> = MongoStream::new(db);
    mongo_stream.add_callback("users", Event::Insert, 1);
    mongo_stream.start_stream("users", close_signal()).unwrap();
    mongo_stream.close_all_streams();
    assert_eq!(mongo_stream.registered_collection_count(), 1);
    let callbacks = mongo_stream.get_collection_callbacks("users");
    assert!(matches!(callbacks.get(&Event::Insert), Some(Handler::Custom(1))));
}

#[test]
fn poll_next_yields_insert() {
    let (_rt, db) = setup_test_db();
    let mongo_stream: MongoStream<u32> = MongoStream::new(db);
    assert!(matches!(mongo_stream.poll_next(), Some(Ok(Event::Insert))));
}

#[test]
fn close_all_matches_closing_each() {
    let (_rt, db) = setup_test_db();
    let mut all_at_once: MongoStream<u32> = MongoStream::new(db.clone());
    let mut one_by_one: MongoStream<u32> = MongoStream::new(db);
    for m in [&mut all_at_once, &mut one_by_one] {
        m.add_callback("a", Event::Delete, 4);
        m.start_stream("a", close_signal()).unwrap();
        m.start_stream("b", close_signal()).unwrap();
    }
    let closed = all_at_once.close_all_streams();
    let mut found = 0;
    for (name, _) in closed.iter() {
        if one_by_one.close_stream(name).is_some() {
            found += 1;
        }
    }
    assert_eq!(found, closed.len());
    assert_eq!(found, 2);
    assert_eq!(all_at_once.active_stream_count(), one_by_one.active_stream_count());
    assert_eq!(one_by_one.active_stream_count(), 0);
    assert_eq!(all_at_once.registered_collection_count(), 1);
    assert_eq!(one_by_one.registered_collection_count(), 1);
}
