use relm::{EventStream, IntoOption};

struct Clicked(u32);

impl IntoOption<u32> for Clicked {
    fn into_option(self) -> Option<u32> {
        Some(self.0)
    }
}

fn drain_all<T>(stream: &mut EventStream<T>) -> Vec<T> {
    let mut seen = Vec::new();
    while let Some(msg) = stream.next() {
        seen.push(msg);
    }
    seen
}

#[test]
fn new_stream_is_empty_and_held_by_its_creator() {
    let stream: EventStream<u32> = EventStream::new();
    assert_eq!(stream.len(), 0);
    assert!(stream.is_empty());
    assert_eq!(stream.producers(), 1);
    assert!(!stream.is_listening());
    assert!(!stream.is_closed());
}

#[test]
fn delivery_order_is_emission_order() {
    let mut stream: EventStream<u32> = EventStream::new();
    stream.listen();
    for msg in [5, 3, 9, 3, 1] {
        stream.emit(msg);
    }
    assert_eq!(stream.len(), 5);
    assert_eq!(drain_all(&mut stream), vec![5, 3, 9, 3, 1]);
    assert!(stream.is_empty());
}

#[test]
fn each_producer_is_observed_in_its_own_order() {
    let mut stream: EventStream<(u8, u32)> = EventStream::new();
    assert!(stream.add_producer());
    assert!(stream.add_producer());
    stream.listen();
    let emissions = vec![(1, 10), (2, 20), (1, 11), (3, 30), (2, 21), (1, 12), (3, 31)];
    for e in emissions.iter() {
        stream.emit(*e);
    }
    let seen = drain_all(&mut stream);
    assert_eq!(seen, emissions);
    for producer in 1..=3u8 {
        let sent: Vec<u32> =
            emissions.iter().filter(|e| e.0 == producer).map(|e| e.1).collect();
        let got: Vec<u32> = seen.iter().filter(|e| e.0 == producer).map(|e| e.1).collect();
        assert_eq!(got, sent);
    }
    let from_one: Vec<u32> = seen.iter().filter(|e| e.0 == 1).map(|e| e.1).collect();
    assert_eq!(from_one, vec![10, 11, 12]);
}

#[test]
fn stream_without_consumer_accepts_and_keeps() {
    let mut stream: EventStream<u32> = EventStream::new();
    stream.emit(1);
    stream.emit(2);
    assert_eq!(stream.next(), None);
    assert_eq!(stream.len(), 2);
    stream.listen();
    assert_eq!(stream.next(), Some(1));
    assert_eq!(stream.next(), Some(2));
    assert_eq!(stream.next(), None);
}

#[test]
fn dropping_every_producer_closes_a_listening_stream() {
    let mut stream: EventStream<u32> = EventStream::new();
    stream.listen();
    assert!(stream.add_producer());
    stream.emit(7);
    stream.drop_producer();
    assert!(!stream.is_closed());
    stream.drop_producer();
    assert!(stream.is_closed());
    assert_eq!(stream.producers(), 0);
    assert_eq!(stream.next(), None);
    assert_eq!(stream.len(), 1);
}

#[test]
fn closed_stream_accepts_but_never_delivers() {
    let mut stream: EventStream<u32> = EventStream::new();
    stream.listen();
    stream.drop_producer();
    stream.emit(1);
    stream.emit(2);
    assert_eq!(stream.len(), 2);
    assert_eq!(stream.next(), None);
    assert_eq!(stream.next(), None);
    assert_eq!(stream.len(), 2);
    assert!(stream.is_closed());
}

#[test]
fn closed_stream_has_no_handle_to_clone() {
    let mut stream: EventStream<u32> = EventStream::new();
    stream.listen();
    stream.drop_producer();
    assert!(!stream.add_producer());
    assert_eq!(stream.producers(), 0);
    assert!(stream.is_closed());
    stream.drop_producer();
    assert_eq!(stream.producers(), 0);
}

#[test]
fn unheld_stream_without_consumer_is_not_closed() {
    let mut stream: EventStream<u32> = EventStream::new();
    stream.drop_producer();
    assert!(!stream.is_closed());
    assert_eq!(stream.producers(), 0);
}

#[test]
fn producers_are_counted() {
    let mut stream: EventStream<u32> = EventStream::new();
    assert!(stream.add_producer());
    assert!(stream.add_producer());
    assert_eq!(stream.producers(), 3);
    stream.drop_producer();
    assert_eq!(stream.producers(), 2);
}

#[test]
fn connect_emits_what_the_callback_made() {
    let mut stream: EventStream<u32> = EventStream::new();
    stream.listen();
    stream.connect(|| Clicked(4));
    stream.connect(|| Some(5u32));
    assert_eq!(drain_all(&mut stream), vec![4, 5]);
}

#[test]
fn connect_emits_nothing_for_none() {
    let mut stream: EventStream<u32> = EventStream::new();
    stream.listen();
    stream.connect(|| None::<u32>);
    assert!(stream.is_empty());
    assert_eq!(stream.next(), None);
}

#[test]
fn option_is_its_own_message_source() {
    assert_eq!(Some(3u8).into_option(), Some(3u8));
    assert_eq!(None::<u8>.into_option(), None);
}
