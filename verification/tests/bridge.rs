use happy_tweet::bridge::{Admission, Bridge, Request, QUEUE_CAPACITY};
use happy_tweet::error::Error;
use happy_tweet::sentiment::{Polarity, Sentiment};

fn request(texts: &[&str], reply: u32) -> Request<u32> {
    Request { texts: texts.iter().map(|t| t.to_string()).collect(), reply }
}

fn sentiments(n: usize) -> Vec<Sentiment> {
    (0..n)
        .map(|i| {
            let polarity = if i % 2 == 0 { Polarity::Positive } else { Polarity::Negative };
            Sentiment::new(polarity, (i as f64 / 10.0).to_bits())
        })
        .collect()
}

fn queued(bridge: &mut Bridge<u32>, texts: &[&str], reply: u32) {
    match bridge.submit(request(texts, reply)) {
        Ok(Admission::Queued) => {}
        Ok(Admission::Full(_)) => panic!("the queue should have room"),
        Err(e) => panic!("the bridge should be open: {:?}", e),
    }
}

/// Classifies the batch in flight and says whose it was.
fn answered(bridge: &mut Bridge<u32>, n: usize) -> u32 {
    let found = sentiments(n);
    let delivery = bridge.finish(found.clone()).ok().expect("one sentiment for each text");
    assert_eq!(delivery.sentiments, found);
    delivery.reply
}

#[test]
fn capacity_of_the_queue() {
    assert_eq!(QUEUE_CAPACITY, 100);
}

#[test]
fn new_bridge_is_open_idle_and_empty() {
    let mut bridge: Bridge<u32> = Bridge::new(QUEUE_CAPACITY);
    assert_eq!(bridge.waiting(), 0);
    assert!(!bridge.is_busy());
    assert!(!bridge.is_closed());
    assert!(bridge.take().is_none());
}

#[test]
fn batch_goes_through_unchanged() {
    let mut bridge: Bridge<u32> = Bridge::new(QUEUE_CAPACITY);
    queued(&mut bridge, &["one", "two", "three"], 7);
    assert_eq!(bridge.waiting(), 1);
    let texts = bridge.take().expect("a batch waits");
    assert_eq!(texts, vec!["one", "two", "three"]);
    assert!(bridge.is_busy());
    assert_eq!(bridge.waiting(), 0);
    let found = sentiments(3);
    let delivery = bridge.finish(found.clone()).ok().expect("one sentiment for each text");
    assert_eq!(delivery.reply, 7);
    assert_eq!(delivery.sentiments, found);
    assert_eq!(delivery.sentiments.len(), texts.len());
    assert!(!bridge.is_busy());
    assert!(!bridge.is_closed());
}

#[test]
fn batches_leave_in_the_order_submitted() {
    let mut bridge: Bridge<u32> = Bridge::new(QUEUE_CAPACITY);
    for i in 0..10u32 {
        let text = format!("text {}", i);
        queued(&mut bridge, &[text.as_str()], i);
    }
    for i in 0..10u32 {
        let texts = bridge.take().expect("a batch waits");
        assert_eq!(texts, vec![format!("text {}", i)]);
        assert_eq!(answered(&mut bridge, 1), i);
    }
    assert!(bridge.take().is_none());
}

#[test]
fn each_answer_goes_to_its_own_caller() {
    let mut bridge: Bridge<u32> = Bridge::new(QUEUE_CAPACITY);
    queued(&mut bridge, &["a", "b"], 11);
    queued(&mut bridge, &["c"], 22);
    queued(&mut bridge, &["d", "e", "f"], 33);
    let mut sizes_by_caller: Vec<(u32, usize)> = Vec::new();
    while let Some(texts) = bridge.take() {
        let found = sentiments(texts.len());
        let delivery = bridge.finish(found).ok().expect("fits");
        sizes_by_caller.push((delivery.reply, delivery.sentiments.len()));
    }
    assert_eq!(sizes_by_caller, vec![(11, 2), (22, 1), (33, 3)]);
}

#[test]
fn worker_gets_one_whole_batch_at_a_time() {
    // A worker that records where each batch starts and ends, fed by three
    // callers whose submissions fall between its steps.
    let mut bridge: Bridge<u32> = Bridge::new(QUEUE_CAPACITY);
    let mut record: Vec<String> = Vec::new();
    queued(&mut bridge, &["a1", "a2"], 1);
    queued(&mut bridge, &["b1"], 2);
    let first = bridge.take().expect("a batch waits");
    record.push(String::from("begin"));
    queued(&mut bridge, &["c1", "c2", "c3"], 3);
    assert!(bridge.take().is_none());
    assert!(bridge.take().is_none());
    for text in &first {
        record.push(text.clone());
    }
    queued(&mut bridge, &["a3"], 1);
    assert!(bridge.take().is_none());
    let caller = answered(&mut bridge, first.len());
    record.push(format!("end {}", caller));
    while let Some(batch) = bridge.take() {
        record.push(String::from("begin"));
        assert!(bridge.take().is_none());
        for text in &batch {
            record.push(text.clone());
        }
        let caller = answered(&mut bridge, batch.len());
        record.push(format!("end {}", caller));
    }
    assert_eq!(
        record,
        vec![
            "begin", "a1", "a2", "end 1", "begin", "b1", "end 2", "begin", "c1", "c2", "c3",
            "end 3", "begin", "a3", "end 1",
        ]
    );
}

#[test]
fn full_queue_hands_the_request_back() {
    let mut bridge: Bridge<u32> = Bridge::new(2);
    queued(&mut bridge, &["a"], 1);
    queued(&mut bridge, &["b"], 2);
    match bridge.submit(request(&["c", "d"], 3)) {
        Ok(Admission::Full(back)) => {
            assert_eq!(back.reply, 3);
            assert_eq!(back.texts, vec!["c", "d"]);
        }
        _ => panic!("the queue is full"),
    }
    assert_eq!(bridge.waiting(), 2);
    // Room comes when the worker takes a batch.
    assert_eq!(bridge.take().expect("a batch waits"), vec!["a"]);
    queued(&mut bridge, &["c", "d"], 3);
    assert_eq!(bridge.waiting(), 2);
    assert_eq!(answered(&mut bridge, 1), 1);
    assert_eq!(bridge.take().expect("a batch waits"), vec!["b"]);
    assert_eq!(answered(&mut bridge, 1), 2);
    assert_eq!(bridge.take().expect("a batch waits"), vec!["c", "d"]);
    assert_eq!(answered(&mut bridge, 2), 3);
}

#[test]
fn queue_holds_exactly_its_capacity() {
    let mut bridge: Bridge<u32> = Bridge::new(QUEUE_CAPACITY);
    for i in 0..100u32 {
        queued(&mut bridge, &["t"], i);
    }
    assert_eq!(bridge.waiting(), 100);
    assert!(matches!(bridge.submit(request(&["t"], 100)), Ok(Admission::Full(_))));
    assert_eq!(bridge.waiting(), 100);
}

#[test]
fn bridge_without_capacity_admits_nothing() {
    let mut bridge: Bridge<u32> = Bridge::new(0);
    assert!(matches!(bridge.submit(request(&["t"], 1)), Ok(Admission::Full(_))));
    assert!(bridge.take().is_none());
}

#[test]
fn empty_batch_gets_an_empty_answer() {
    let mut bridge: Bridge<u32> = Bridge::new(QUEUE_CAPACITY);
    queued(&mut bridge, &[], 1);
    let texts = bridge.take().expect("a batch waits");
    assert!(texts.is_empty());
    let delivery = bridge.finish(Vec::new()).ok().expect("nothing for nothing");
    assert_eq!(delivery.reply, 1);
    assert!(delivery.sentiments.is_empty());
}

#[test]
fn answer_of_the_wrong_length_closes_the_bridge() {
    let mut bridge: Bridge<u32> = Bridge::new(QUEUE_CAPACITY);
    queued(&mut bridge, &["a", "b"], 1);
    queued(&mut bridge, &["c"], 2);
    bridge.take().expect("a batch waits");
    assert_eq!(bridge.finish(sentiments(1)).err(), Some(Error::BridgeClosed));
    assert!(bridge.is_closed());
    assert!(bridge.take().is_none());
    assert_eq!(bridge.submit(request(&["d"], 3)).err(), Some(Error::BridgeClosed));
    assert_eq!(bridge.finish(sentiments(2)).err(), Some(Error::BridgeClosed));
    assert_eq!(bridge.close(), vec![1, 2]);
    assert!(!bridge.is_busy());
}

#[test]
fn answer_that_is_too_long_closes_the_bridge() {
    let mut bridge: Bridge<u32> = Bridge::new(QUEUE_CAPACITY);
    queued(&mut bridge, &["a"], 1);
    bridge.take().expect("a batch waits");
    assert_eq!(bridge.finish(sentiments(2)).err(), Some(Error::BridgeClosed));
    assert!(bridge.is_closed());
}

#[test]
fn answer_without_a_batch_closes_the_bridge() {
    let mut bridge: Bridge<u32> = Bridge::new(QUEUE_CAPACITY);
    assert_eq!(bridge.finish(Vec::new()).err(), Some(Error::BridgeClosed));
    assert!(bridge.is_closed());
}

#[test]
fn closed_bridge_refuses_submissions() {
    let mut bridge: Bridge<u32> = Bridge::new(QUEUE_CAPACITY);
    queued(&mut bridge, &["a"], 1);
    queued(&mut bridge, &["b"], 2);
    assert_eq!(bridge.close(), vec![1, 2]);
    assert!(bridge.is_closed());
    assert_eq!(bridge.waiting(), 0);
    assert_eq!(bridge.submit(request(&["c"], 3)).err(), Some(Error::BridgeClosed));
    assert!(bridge.take().is_none());
    assert!(bridge.close().is_empty());
}

#[test]
fn closing_while_busy_fails_every_caller() {
    let mut bridge: Bridge<u32> = Bridge::new(QUEUE_CAPACITY);
    queued(&mut bridge, &["a"], 1);
    queued(&mut bridge, &["b"], 2);
    queued(&mut bridge, &["c"], 3);
    bridge.take().expect("a batch waits");
    assert_eq!(bridge.close(), vec![1, 2, 3]);
    assert!(!bridge.is_busy());
    assert_eq!(bridge.finish(sentiments(1)).err(), Some(Error::BridgeClosed));
}

#[test]
fn start_with_a_model() {
    let mut bridge: Bridge<u32> = Bridge::new(QUEUE_CAPACITY);
    queued(&mut bridge, &["a"], 1);
    assert_eq!(bridge.start(true), Ok(()));
    assert!(!bridge.is_closed());
    assert_eq!(bridge.take().expect("a batch waits"), vec!["a"]);
}

#[test]
fn start_without_a_model() {
    let mut bridge: Bridge<u32> = Bridge::new(QUEUE_CAPACITY);
    queued(&mut bridge, &["a"], 1);
    assert_eq!(bridge.start(false), Err(Error::ModelLoad));
    assert!(bridge.is_closed());
    assert!(bridge.take().is_none());
    assert_eq!(bridge.submit(request(&["b"], 2)).err(), Some(Error::BridgeClosed));
    assert_eq!(bridge.close(), vec![1]);
}
