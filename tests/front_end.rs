use std::str::FromStr;

use task_maker_format::{
    CompilationStatus, CompilationTracker, Dispatcher, UIExecutionStatus, UIMessage,
    UIMessageSender, UIType, UI,
};

struct Recorder {
    messages: Vec<UIMessage>,
    finished: u32,
}

impl UI for Recorder {
    fn on_message(&mut self, message: UIMessage) {
        self.messages.push(message);
    }

    fn finish(&mut self) {
        self.finished += 1;
    }
}

fn warning(n: u32) -> UIMessage {
    UIMessage::Warning { message: format!("w{}", n) }
}

#[test]
fn stop_finishes_exactly_once() {
    for before in 0..5u32 {
        let mut d = Dispatcher::new(Recorder { messages: vec![], finished: 0 });
        for i in 0..before {
            assert!(d.dispatch(warning(i)));
        }
        assert!(!d.is_stopped());
        assert!(!d.dispatch(UIMessage::StopUI));
        assert!(d.is_stopped());
        assert!(!d.dispatch(warning(99)));
        assert!(!d.dispatch(UIMessage::StopUI));
        d.close();
        let r = d.into_ui();
        assert_eq!(r.finished, 1);
        assert_eq!(r.messages.len(), before as usize);
    }
}

#[test]
fn closing_finishes_once() {
    let mut d = Dispatcher::new(Recorder { messages: vec![], finished: 0 });
    assert!(d.dispatch(warning(1)));
    d.close();
    d.close();
    assert!(!d.dispatch(warning(2)));
    assert_eq!(d.ui().finished, 1);
    assert_eq!(d.ui().messages, vec![warning(1)]);
}

#[test]
fn tracker_as_front_end() {
    let mut d = Dispatcher::new(CompilationTracker::new());
    d.dispatch(UIMessage::Compilation { file: "a.c".to_string(), status: UIExecutionStatus::Skipped });
    d.dispatch(UIMessage::StopUI);
    d.dispatch(UIMessage::Compilation { file: "a.c".to_string(), status: UIExecutionStatus::Pending });
    assert_eq!(d.ui().get(&"a.c".to_string()), Some(&CompilationStatus::Skipped));
}

#[test]
fn messages_arrive_in_the_order_sent() {
    let mut seed: u64 = 12345;
    for _round in 0..100 {
        let (sender, receiver) = UIMessageSender::new();
        let mut next = [0u32; 3];
        for _ in 0..30 {
            seed = seed.wrapping_mul(6364136223846793005).wrapping_add(1442695040888963407);
            let producer = ((seed >> 33) % 3) as usize;
            let msg = UIMessage::Warning { message: format!("{}:{}", producer, next[producer]) };
            next[producer] += 1;
            assert!(sender.send(msg).is_ok());
        }
        drop(sender);
        let mut seen = [0u32; 3];
        while let Ok(UIMessage::Warning { message }) = receiver.recv() {
            let mut parts = message.split(':');
            let p: usize = parts.next().unwrap().parse().unwrap();
            let n: u32 = parts.next().unwrap().parse().unwrap();
            assert_eq!(n, seen[p]);
            seen[p] += 1;
        }
        assert_eq!(seen, next);
    }
}

#[test]
fn send_after_the_receiver_is_gone_fails() {
    let (sender, receiver) = UIMessageSender::new();
    drop(receiver);
    let err = sender.send(warning(5)).unwrap_err();
    assert_eq!(err.message, warning(5));
}

#[test]
fn ui_type_names() {
    assert_eq!(UIType::from_str("print"), Ok(UIType::Print));
    assert_eq!(UIType::from_str("RAW"), Ok(UIType::Raw));
    assert_eq!(UIType::from_str("Curses"), Ok(UIType::Curses));
    assert_eq!(UIType::from_str("jSoN"), Ok(UIType::Json));
    assert_eq!(UIType::from_str("silent"), Ok(UIType::Silent));
}

#[test]
fn unknown_ui_type_is_an_error() {
    assert_eq!(UIType::from_str("fancy"), Err("Unknown ui: fancy".to_string()));
    assert_eq!(UIType::from_str(""), Err("Unknown ui: ".to_string()));
    assert_eq!(UIType::from_str("print "), Err("Unknown ui: print ".to_string()));
}

#[test]
fn dispatch_each_stops_at_the_first_stop() {
    let mut d = Dispatcher::new(Recorder { messages: vec![], finished: 0 });
    let go = d.dispatch_each(vec![warning(1), warning(2), UIMessage::StopUI, warning(3), UIMessage::StopUI]);
    assert!(!go);
    assert!(d.is_stopped());
    assert_eq!(d.ui().messages, vec![warning(1), warning(2)]);
    assert_eq!(d.ui().finished, 1);
}

#[test]
fn dispatch_each_without_stop_goes_on() {
    let mut d = Dispatcher::new(Recorder { messages: vec![], finished: 0 });
    assert!(d.dispatch_each(vec![warning(1), warning(2)]));
    assert!(d.dispatch_each(vec![]));
    assert_eq!(d.ui().messages, vec![warning(1), warning(2)]);
    assert_eq!(d.ui().finished, 0);
}

