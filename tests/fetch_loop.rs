use memegen::{Action, Event, FetchLoop, Meme, Phase};

fn meme(tag: &str) -> Meme {
    Meme::new(format!("p{tag}"), format!("t{tag}"), format!("u{tag}"), format!("a{tag}"))
}

fn ready(ns: u64) -> Event {
    Event::Ready { elapsed_nanos: ns }
}

fn fetched(tag: &str, ns: u64) -> Event {
    Event::Fetched { meme: meme(tag), elapsed_nanos: ns }
}

fn progress(a: Action) -> (String, bool) {
    match a {
        Action::Progress { line, pause } => (line, pause),
        other => panic!("expected a progress line, got {other:?}"),
    }
}

#[test]
fn all_successes_give_amount_memes_in_order() {
    let mut l = FetchLoop::new(3);
    assert!(matches!(l.step(ready(0)), Action::Fetch));
    assert_eq!(progress(l.step(fetched("1", 1_000_000_000))), ("\rFetched 1/3 meme... 1.00 memes/sec".to_string(), true));
    assert!(matches!(l.step(ready(2_000_000_000)), Action::Fetch));
    assert_eq!(progress(l.step(fetched("2", 2_500_000_000))), ("\rFetched 2/3 memes... 0.80 memes/sec".to_string(), true));
    assert!(matches!(l.step(ready(3_500_000_000)), Action::Fetch));
    assert_eq!(progress(l.step(fetched("3", 4_000_000_000))), ("\rFetched 3/3 memes... 0.75 memes/sec".to_string(), false));
    match l.step(ready(4_001_000_000)) {
        Action::Finish { summary } => assert_eq!(
            summary,
            "\rFetched a total of 3 memes in 4.00 seconds. Override with the --amount (int) arg"
        ),
        other => panic!("expected the summary, got {other:?}"),
    }
    assert_eq!(l.phase(), Phase::Finished);
    let memes = l.into_memes().expect("a finished run hands out its memes");
    assert_eq!(memes.len(), 3);
    let titles: Vec<&str> = memes.iter().map(|m| m.title.as_str()).collect();
    assert_eq!(titles, vec!["t1", "t2", "t3"]);
}

#[test]
fn zero_amount_fetches_nothing() {
    let mut l = FetchLoop::new(0);
    match l.step(ready(0)) {
        Action::Finish { summary } => assert_eq!(
            summary,
            "\rFetched a total of 0 memes in 0.00 seconds. Override with the --amount (int) arg"
        ),
        other => panic!("expected the summary, got {other:?}"),
    }
    assert_eq!(l.fetched(), 0);
    assert!(l.into_memes().expect("finished").is_empty());
}

#[test]
fn elapsed_never_goes_back() {
    let mut l = FetchLoop::new(2);
    l.step(ready(0));
    let (line, _) = progress(l.step(fetched("1", 2_000_000_000)));
    assert_eq!(line, "\rFetched 1/2 meme... 0.50 memes/sec");
    // a clock that reports an earlier time does not lower the elapsed time
    l.step(ready(1_000_000_000));
    let (line, pause) = progress(l.step(fetched("2", 1_500_000_000)));
    assert_eq!(line, "\rFetched 2/2 memes... 1.00 memes/sec");
    assert!(!pause);
    match l.step(ready(1_800_000_000)) {
        Action::Finish { summary } => assert!(summary.contains(" in 2.00 seconds.")),
        other => panic!("expected the summary, got {other:?}"),
    }
}

#[test]
fn rate_after_each_fetch() {
    let mut l = FetchLoop::new(4);
    let times: [u64; 4] = [500_000_000, 1_600_000_000, 2_700_000_000, 3_800_000_000];
    let rates = ["2.00", "1.25", "1.11", "1.05"];
    for (i, (t, r)) in times.iter().zip(rates.iter()).enumerate() {
        l.step(ready(*t - 100_000_000));
        let (line, pause) = progress(l.step(fetched(&i.to_string(), *t)));
        assert!(line.ends_with(&format!("... {r} memes/sec")), "{line}");
        assert_eq!(pause, i < 3);
    }
}

#[test]
fn rate_with_zero_elapsed_is_zero() {
    let mut l = FetchLoop::new(1);
    l.step(ready(0));
    let (line, pause) = progress(l.step(fetched("1", 0)));
    assert_eq!(line, "\rFetched 1/1 meme... 0.00 memes/sec");
    assert!(!pause);
}

#[test]
fn single_meme_scenario() {
    let mut l = FetchLoop::new(1);
    assert!(matches!(l.step(ready(0)), Action::Fetch));
    let m = Meme::new("p1".to_string(), "t1".to_string(), "u1".to_string(), "a1".to_string());
    let (line, pause) = progress(l.step(Event::Fetched { meme: m, elapsed_nanos: 250_000_000 }));
    assert_eq!(line, "\rFetched 1/1 meme... 4.00 memes/sec");
    assert!(!pause);
    assert!(matches!(l.step(ready(260_000_000)), Action::Finish { .. }));
    let memes = l.into_memes().expect("finished");
    assert_eq!(memes.len(), 1);
    assert_eq!(memes[0].post_link, "p1");
    assert_eq!(memes[0].title, "t1");
    assert_eq!(memes[0].url, "u1");
    assert_eq!(memes[0].author, "a1");
    assert_eq!(memes[0].describe(), "Title: t1\nAuthor: a1\nLink: p1\nMeme URL: u1");
}

#[test]
fn failure_on_second_fetch_aborts() {
    let mut l = FetchLoop::new(3);
    l.step(ready(0));
    progress(l.step(fetched("1", 1_000_000)));
    l.step(ready(1_001_000_000));
    progress(l.step(fetched("2", 1_002_000_000)));
    assert_eq!(l.fetched(), 2);
    assert!(matches!(l.step(ready(2_002_000_000)), Action::Fetch));
    match l.step(Event::Failed { message: "HTTP status server error (500)".to_string() }) {
        Action::Abort { message } => assert_eq!(message, "HTTP status server error (500)"),
        other => panic!("expected an abort, got {other:?}"),
    }
    assert_eq!(l.phase(), Phase::Aborted);
    assert!(!l.accepts(&ready(3_000_000_000)));
    assert!(l.into_memes().is_none());
}

#[test]
fn failure_on_first_fetch_aborts() {
    let mut l = FetchLoop::new(1);
    l.step(ready(0));
    assert!(matches!(l.step(Event::Failed { message: "no body".to_string() }), Action::Abort { .. }));
    assert!(l.into_memes().is_none());
}

#[test]
fn events_out_of_turn_are_not_taken() {
    let l = FetchLoop::new(2);
    assert_eq!(l.amount(), 2);
    assert_eq!(l.phase(), Phase::AwaitingReady);
    assert!(l.accepts(&ready(0)));
    assert!(!l.accepts(&fetched("1", 0)));
    assert!(!l.accepts(&Event::Failed { message: String::new() }));
    let mut l = l;
    l.step(ready(0));
    assert!(!l.accepts(&ready(1)));
    assert!(l.accepts(&fetched("1", 1)));
}

#[test]
fn unfinished_run_hands_out_nothing() {
    let mut l = FetchLoop::new(2);
    l.step(ready(0));
    l.step(fetched("1", 5));
    assert_eq!(l.fetched(), 1);
    assert!(l.into_memes().is_none());
}
