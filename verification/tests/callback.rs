use relm::callback::{Action, FlushReply, SendReply};
use relm::Resolver;

/// Drives a resolver against a channel that takes everything, and returns
/// what went into the channel and how often the loop was told to quit.
fn carry_out(resolver: &mut Resolver<u32>, first: Action<u32>, wire: &mut Vec<u32>) -> u32 {
    let mut quits = 0;
    let mut action = first;
    loop {
        action = match action {
            Action::Send(value) => {
                wire.push(value);
                resolver.sent(SendReply::Ready)
            }
            Action::Flush => resolver.flushed(FlushReply::Ready),
            Action::Quit => {
                quits += 1;
                Action::Nothing
            }
            Action::Fail => panic!("the channel failed"),
            Action::Nothing => return quits,
        }
    }
}

#[test]
fn resolve_sends_the_value_and_quits_the_loop() {
    let mut resolver: Resolver<u32> = Resolver::new();
    assert!(!resolver.send_done());
    let mut wire = Vec::new();
    let first = resolver.resolve(17);
    assert_eq!(first, Action::Send(17));
    let quits = carry_out(&mut resolver, first, &mut wire);
    assert_eq!(wire, vec![17]);
    assert_eq!(quits, 1);
    assert!(resolver.send_done());
    assert!(!resolver.has_failed());
}

#[test]
fn resolver_walks_send_flush_quit() {
    let mut resolver: Resolver<u32> = Resolver::new();
    assert_eq!(resolver.resolve(1), Action::Send(1));
    assert!(!resolver.send_done());
    assert_eq!(resolver.sent(SendReply::Ready), Action::Flush);
    assert!(!resolver.send_done());
    assert_eq!(resolver.flushed(FlushReply::Ready), Action::Quit);
    assert!(resolver.send_done());
}

#[test]
fn drop_without_resolve_sends_the_default() {
    let mut resolver: Resolver<u32> = Resolver::new();
    let mut wire = Vec::new();
    let first = resolver.dropped();
    assert_eq!(first, Action::Send(0));
    let quits = carry_out(&mut resolver, first, &mut wire);
    assert_eq!(wire, vec![0]);
    assert_eq!(quits, 1);
    assert!(resolver.send_done());
}

#[test]
fn drop_sends_the_default_of_the_type() {
    let mut flag: Resolver<bool> = Resolver::new();
    assert_eq!(flag.dropped(), Action::Send(false));
    let mut text: Resolver<String> = Resolver::new();
    assert_eq!(text.dropped(), Action::Send(String::new()));
    let mut choice: Resolver<Option<u8>> = Resolver::new();
    assert_eq!(choice.dropped(), Action::Send(None));
}

#[test]
fn drop_after_resolve_sends_nothing() {
    let mut resolver: Resolver<u32> = Resolver::new();
    let mut wire = Vec::new();
    let first = resolver.resolve(5);
    carry_out(&mut resolver, first, &mut wire);
    let last = resolver.dropped();
    assert_eq!(last, Action::Nothing);
    let quits = carry_out(&mut resolver, last, &mut wire);
    assert_eq!(wire, vec![5]);
    assert_eq!(quits, 0);
}

#[test]
fn second_resolve_never_alters_what_was_sent() {
    let mut resolver: Resolver<u32> = Resolver::new();
    let mut wire = Vec::new();
    let first = resolver.resolve(5);
    let mut quits = carry_out(&mut resolver, first, &mut wire);
    let second = resolver.resolve(6);
    assert_eq!(second, Action::Nothing);
    quits += carry_out(&mut resolver, second, &mut wire);
    let third = resolver.resolve(7);
    quits += carry_out(&mut resolver, third, &mut wire);
    let last = resolver.dropped();
    quits += carry_out(&mut resolver, last, &mut wire);
    assert_eq!(wire, vec![5]);
    assert_eq!(quits, 1);
    assert!(resolver.send_done());
}

#[test]
fn resolve_while_sending_sends_nothing_more() {
    let mut resolver: Resolver<u32> = Resolver::new();
    assert_eq!(resolver.resolve(1), Action::Send(1));
    assert_eq!(resolver.resolve(2), Action::Nothing);
    assert_eq!(resolver.dropped(), Action::Nothing);
    assert_eq!(resolver.sent(SendReply::Ready), Action::Flush);
    assert_eq!(resolver.resolve(3), Action::Nothing);
    assert_eq!(resolver.flushed(FlushReply::Ready), Action::Quit);
}

#[test]
fn full_channel_is_a_failure() {
    let mut resolver: Resolver<u32> = Resolver::new();
    resolver.resolve(1);
    assert_eq!(resolver.sent(SendReply::NotReady), Action::Fail);
    assert!(resolver.has_failed());
    assert!(!resolver.send_done());
    assert_eq!(resolver.flushed(FlushReply::Ready), Action::Nothing);
    assert_eq!(resolver.resolve(2), Action::Nothing);
    assert_eq!(resolver.dropped(), Action::Nothing);
}

#[test]
fn lost_receiver_is_a_failure() {
    let mut resolver: Resolver<u32> = Resolver::new();
    resolver.resolve(1);
    assert_eq!(resolver.sent(SendReply::Disconnected), Action::Fail);
    assert!(resolver.has_failed());
}

#[test]
fn failed_flush_is_a_failure() {
    let mut busy: Resolver<u32> = Resolver::new();
    busy.resolve(1);
    busy.sent(SendReply::Ready);
    assert_eq!(busy.flushed(FlushReply::NotReady), Action::Fail);
    assert!(busy.has_failed());
    let mut broken: Resolver<u32> = Resolver::new();
    broken.resolve(1);
    broken.sent(SendReply::Ready);
    assert_eq!(broken.flushed(FlushReply::Failed), Action::Fail);
    assert!(broken.has_failed());
    assert!(!broken.send_done());
}

#[test]
fn replies_out_of_turn_change_nothing() {
    let mut resolver: Resolver<u32> = Resolver::new();
    assert_eq!(resolver.sent(SendReply::Ready), Action::Nothing);
    assert_eq!(resolver.flushed(FlushReply::Ready), Action::Nothing);
    assert!(!resolver.send_done());
    assert_eq!(resolver.resolve(9), Action::Send(9));
    assert_eq!(resolver.flushed(FlushReply::Ready), Action::Nothing);
    assert_eq!(resolver.sent(SendReply::Ready), Action::Flush);
    assert_eq!(resolver.sent(SendReply::Ready), Action::Nothing);
}
