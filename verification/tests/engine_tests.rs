use imgur_enumerator::candidate::UriGenerator;
use imgur_enumerator::engine::{begin_probe, handle_completion};
use imgur_enumerator::fanout::Fanout;
use imgur_enumerator::prober::{classify, Prober};
use imgur_enumerator::stats::Stats;

#[test]
fn generated_token_is_seven_alphanumerics() {
    let generator = UriGenerator::new(
        String::from("https://i.imgur.com/"),
        String::from(".png"),
    );
    for _ in 0..50 {
        let c = generator.next();
        assert_eq!(c.token.len(), 7);
        assert!(c.token.chars().all(|ch| ch.is_ascii_alphanumeric()));
        assert_eq!(
            c.locator,
            format!("https://i.imgur.com/{}.png", c.token)
        );
    }
}

#[test]
fn consecutive_candidates_differ() {
    let generator = UriGenerator::new(
        String::from("https://i.imgur.com/"),
        String::from(".png"),
    );
    let a = generator.next();
    let b = generator.next();
    assert_ne!(a.locator, b.locator);
}

#[test]
fn classification_by_status_class() {
    let ok = classify(String::from("u"), Some(200), Some(10));
    assert!(ok.success);
    assert_eq!(ok.content_length, Some(10));

    let no_content = classify(String::from("u"), Some(204), None);
    assert!(no_content.success);
    assert_eq!(no_content.content_length, None);

    let missing = classify(String::from("u"), Some(404), Some(10));
    assert!(!missing.success);
    assert_eq!(missing.content_length, None);

    let transport_failure = classify(String::from("u"), None, Some(10));
    assert!(!transport_failure.success);
    assert_eq!(transport_failure.content_length, None);
}

#[test]
fn outcome_counts_request_and_discovery() {
    let mut stats = Stats::new();
    stats.record_outcome(false);
    assert_eq!(stats.total_requests, 1);
    assert_eq!(stats.total_found, 0);
    stats.record_outcome(true);
    assert_eq!(stats.total_requests, 2);
    assert_eq!(stats.total_found, 1);
    assert_eq!(stats.requests_this_second, 2);
    assert_eq!(stats.found_this_minute, 1);
}

#[test]
fn prober_respects_bound() {
    let mut prober = Prober::new(4);
    for _ in 0..4 {
        assert!(prober.can_issue());
        prober.issue();
        assert!(prober.outstanding <= prober.bound);
    }
    assert!(!prober.can_issue());
    prober.complete();
    assert_eq!(prober.outstanding, 3);
    assert!(prober.can_issue());
}

#[test]
fn begin_probe_admits_and_draws() {
    let generator = UriGenerator::new(
        String::from("https://i.imgur.com/"),
        String::from(".png"),
    );
    let mut prober = Prober::new(2);
    let c = begin_probe(&mut prober, &generator);
    assert_eq!(prober.outstanding, 1);
    assert_eq!(c.token.len(), 7);
    assert!(c.locator.starts_with("https://i.imgur.com/"));
    assert!(c.locator.ends_with(".png"));
}

#[test]
fn single_hit_among_many_probes() {
    // Concurrency one, and a transport that succeeds for exactly one
    // candidate value: after ten probes there is one discovery and ten
    // requests.
    let generator = UriGenerator::new(
        String::from("https://i.imgur.com/"),
        String::from(".png"),
    );
    let mut prober = Prober::new(1);
    let mut stats = Stats::new();
    let mut fanout = Fanout::new(true, true, true);

    let mut locators = Vec::new();
    for _ in 0..10 {
        locators.push(generator.next().locator);
    }
    let hit = locators[3].clone();

    for locator in &locators {
        assert!(prober.can_issue());
        prober.issue();
        assert!(prober.outstanding <= prober.bound);
        let status = if *locator == hit { Some(200) } else { Some(404) };
        handle_completion(
            &mut prober,
            &mut stats,
            &mut fanout,
            locator.clone(),
            status,
            None,
        );
    }

    assert_eq!(stats.total_requests, 10);
    assert_eq!(stats.total_found, 1);
    assert_eq!(prober.outstanding, 0);
    let hits = fanout.export.drain();
    assert_eq!(hits.len(), 1);
    assert_eq!(hits[0].locator, hit);
}

#[test]
fn discovery_reaches_every_registered_sink() {
    let mut prober = Prober::new(2);
    let mut stats = Stats::new();
    let mut fanout = Fanout::new(true, true, true);
    prober.issue();
    let d = handle_completion(
        &mut prober,
        &mut stats,
        &mut fanout,
        String::from("https://i.imgur.com/AbC1234.png"),
        Some(200),
        Some(12345),
    );
    let d = d.expect("a success is a discovery");
    assert_eq!(d.locator, "https://i.imgur.com/AbC1234.png");
    assert_eq!(d.size, Some(12345));

    for q in [&mut fanout.export, &mut fanout.relay_a, &mut fanout.relay_b] {
        let got = q.drain();
        assert_eq!(got.len(), 1);
        assert_eq!(got[0].locator, "https://i.imgur.com/AbC1234.png");
        assert_eq!(got[0].size, Some(12345));
    }
}

#[test]
fn failure_reaches_no_sink() {
    let mut prober = Prober::new(2);
    let mut stats = Stats::new();
    let mut fanout = Fanout::new(true, true, true);
    prober.issue();
    let d = handle_completion(
        &mut prober,
        &mut stats,
        &mut fanout,
        String::from("https://i.imgur.com/AbC1234.png"),
        Some(404),
        None,
    );
    assert!(d.is_none());
    assert_eq!(fanout.export.drain().len(), 0);
    assert_eq!(fanout.relay_a.drain().len(), 0);
    assert_eq!(fanout.relay_b.drain().len(), 0);
}

#[test]
fn disabled_sink_changes_nothing_for_others() {
    // The same discoveries through a fan-out with all sinks and through one
    // with a relay removed: the export sink is offered the same values.
    let mut all = Fanout::new(true, true, true);
    let mut without_relay_b = Fanout::new(true, true, false);
    for (i, locator) in ["a", "b", "c"].iter().enumerate() {
        let d = imgur_enumerator::fanout::Discovery {
            locator: locator.to_string(),
            size: Some(i as u64),
        };
        all.dispatch(&d);
        without_relay_b.dispatch(&d);
    }
    let from_all = all.export.drain();
    let from_fewer = without_relay_b.export.drain();
    assert_eq!(from_all.len(), 3);
    assert_eq!(from_fewer.len(), 3);
    for i in 0..3 {
        assert_eq!(from_all[i].locator, from_fewer[i].locator);
        assert_eq!(from_all[i].size, from_fewer[i].size);
    }
    // The removed sink was offered nothing.
    assert_eq!(without_relay_b.relay_b.drain().len(), 0);
}

#[test]
fn unreachable_relay_still_leaves_other_sinks_served() {
    // Both relay sinks registered; one endpoint is permanently unreachable.
    // Delivery failure is the consumer's problem: the dispatcher still
    // offers every discovery to every registered sink, and the export sink
    // and the reachable relay see all of them.
    let mut fanout = Fanout::new(true, true, true);
    for locator in ["a", "b"] {
        let d = imgur_enumerator::fanout::Discovery {
            locator: locator.to_string(),
            size: None,
        };
        fanout.dispatch(&d);
    }
    let export = fanout.export.drain();
    let reachable = fanout.relay_a.drain();
    let unreachable = fanout.relay_b.drain();
    assert_eq!(export.len(), 2);
    assert_eq!(reachable.len(), 2);
    // The unreachable relay's consumer swallows its delivery failures.
    for d in unreachable {
        let _ = d;
    }
    assert_eq!(export[0].locator, "a");
    assert_eq!(export[1].locator, "b");
}
