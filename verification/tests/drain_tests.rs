use gmsv_reqwest::dispatcher::Completion;
use gmsv_reqwest::dispatcher::Dispatcher;
use gmsv_reqwest::dispatcher::Polled;
use gmsv_reqwest::dispatcher::SubmitError;
use gmsv_reqwest::dispatcher::complete_request;
use gmsv_reqwest::dispatcher::poll_outcome;
use gmsv_reqwest::dispatcher::result_channel;
use gmsv_reqwest::http::HTTPRequest;
use gmsv_reqwest::http::RequestConfig;
use gmsv_reqwest::outcome::CallbackResult;
use gmsv_reqwest::outcome::ResponseParts;
use gmsv_reqwest::pending::PendingCounter;
use gmsv_reqwest::plan::HostAction;

fn request(success: Option<i32>, failed: Option<i32>) -> HTTPRequest {
    HTTPRequest::from_config(RequestConfig {
        method: None,
        url: Some("https://example.com/".to_string()),
        body: None,
        content_type: None,
        timeout: None,
        parameters: None,
        headers: None,
        success,
        failed,
    })
    .unwrap()
}

fn ok_response(body: &[u8]) -> Result<ResponseParts, String> {
    Ok(ResponseParts {
        status: 200,
        headers: vec![("Content-Type".to_string(), b"text/plain".to_vec())],
        body: body.to_vec(),
    })
}

#[test]
fn scenario_success_roundtrip() {
    let (mut dispatcher, work_rx) = Dispatcher::new();
    let (result_tx, result_rx) = result_channel();

    let install = dispatcher.submit(request(Some(11), None)).unwrap();
    assert!(install);
    assert_eq!(dispatcher.counter.pending(), 1);
    assert!(dispatcher.counter.hook_installed());

    // The worker side: receive the request and finish it with HTTP 200 "ok".
    let req = work_rx.try_recv().unwrap();
    assert_eq!(req.success, Some(11));
    let done = complete_request(&result_tx, ok_response(b"ok"), req.success, req.failed);
    assert_eq!(done, Completion::Delivered);

    // The host side: the next tick drains exactly one outcome.
    let outcome = match poll_outcome(&result_rx) {
        Polled::Item(o) => o,
        other => panic!("expected an outcome, got {:?}", other),
    };
    assert_eq!(
        outcome,
        CallbackResult::Success(
            11,
            200,
            vec![("Content-Type".to_string(), b"text/plain".to_vec())],
            b"ok".to_vec(),
            None
        )
    );
    let plan = outcome.plan();
    assert!(plan.contains(&HostAction::PushInteger(200)));
    assert!(plan.contains(&HostAction::PushBinaryString(b"ok".to_vec())));

    let deregister = dispatcher.counter.on_outcome_drained();
    assert!(deregister);
    assert_eq!(dispatcher.counter.pending(), 0);
    assert!(!dispatcher.counter.hook_installed());
    assert_eq!(poll_outcome(&result_rx), Polled::Empty);
}

#[test]
fn scenario_failure_releases_unused_success_handle() {
    let (mut dispatcher, work_rx) = Dispatcher::new();
    let (result_tx, result_rx) = result_channel();

    dispatcher.submit(request(Some(1), Some(2))).unwrap();
    let req = work_rx.try_recv().unwrap();
    let done = complete_request(
        &result_tx,
        Err("connection refused".to_string()),
        req.success,
        req.failed,
    );
    assert_eq!(done, Completion::Delivered);

    let outcome = match poll_outcome(&result_rx) {
        Polled::Item(o) => o,
        other => panic!("expected an outcome, got {:?}", other),
    };
    assert_eq!(
        outcome,
        CallbackResult::Failed(2, "connection refused".to_string(), Some(1))
    );
    let plan = outcome.plan();
    // The unused success handle is released first, before the callback runs.
    assert_eq!(plan[0], HostAction::Dereference(1));
    assert!(plan.contains(&HostAction::PushFailureMarker));
    assert!(
        plan.contains(&HostAction::PushString("connection refused".to_string()))
    );
    assert!(dispatcher.counter.on_outcome_drained());
}

#[test]
fn scenario_fire_and_forget_requests_never_drift() {
    let (mut dispatcher, work_rx) = Dispatcher::new();
    let (result_tx, result_rx) = result_channel();

    for _ in 0..1000 {
        let install = dispatcher.submit(request(None, None)).unwrap();
        assert!(!install);
        assert_eq!(dispatcher.counter.pending(), 0);
        assert!(!dispatcher.counter.hook_installed());
    }
    let mut owed_nothing = 0;
    while let Ok(req) = work_rx.try_recv() {
        let done = complete_request(&result_tx, ok_response(b""), req.success, req.failed);
        assert_eq!(done, Completion::NothingOwed);
        owed_nothing += 1;
    }
    assert_eq!(owed_nothing, 1000);
    assert_eq!(poll_outcome(&result_rx), Polled::Empty);
    assert_eq!(dispatcher.counter.pending(), 0);
    assert!(!dispatcher.counter.hook_installed());
}

#[test]
fn scenario_hundred_submissions_before_any_drain() {
    let (mut dispatcher, work_rx) = Dispatcher::new();
    let (result_tx, result_rx) = result_channel();

    for i in 0..100 {
        let install = dispatcher.submit(request(Some(i), None)).unwrap();
        assert_eq!(install, i == 0);
    }
    assert_eq!(dispatcher.counter.pending(), 100);

    while let Ok(req) = work_rx.try_recv() {
        complete_request(&result_tx, ok_response(b"ok"), req.success, req.failed);
    }

    let mut drained = 0;
    let mut deregistrations = 0;
    loop {
        match poll_outcome(&result_rx) {
            Polled::Item(outcome) => {
                assert!(matches!(outcome, CallbackResult::Success(..)));
                drained += 1;
                if dispatcher.counter.on_outcome_drained() {
                    deregistrations += 1;
                    break;
                }
            }
            Polled::Empty => panic!("an outcome is missing"),
            Polled::Disconnected => panic!("result channel gone"),
        }
    }
    assert_eq!(drained, 100);
    assert_eq!(deregistrations, 1);
    assert_eq!(dispatcher.counter.pending(), 0);
    assert!(!dispatcher.counter.hook_installed());
    assert_eq!(poll_outcome(&result_rx), Polled::Empty);
}

#[test]
fn scenario_shutdown_with_requests_in_flight_joins() {
    let (mut dispatcher, work_rx) = Dispatcher::new();
    let (result_tx, result_rx) = result_channel();

    for i in 0..10 {
        dispatcher.submit(request(Some(i), None)).unwrap();
    }

    crossbeam::thread::scope(|scope| {
        scope.spawn(move |_| {
            // The worker loop: drain dispatched requests until the sending
            // side is dropped, finishing each with a canned response.
            while let Ok(req) = work_rx.recv() {
                complete_request(&result_tx, ok_response(b"late"), req.success, req.failed);
            }
        });
        // Shutdown while the ten requests are in flight: dropping the
        // dispatcher drops the dispatch sender, the worker sees the end of
        // the stream after finishing what was queued, and the join below
        // (the end of the scope) completes rather than deadlocking.
        drop(dispatcher);
    })
    .unwrap();

    let mut seen = 0;
    loop {
        match poll_outcome(&result_rx) {
            Polled::Item(_) => seen += 1,
            Polled::Disconnected => break,
            Polled::Empty => panic!("the worker is gone; the channel cannot stay open"),
        }
    }
    assert_eq!(seen, 10);
}

#[test]
fn drain_with_nothing_available_does_nothing() {
    let (_result_tx, result_rx) = result_channel();
    let mut counter = PendingCounter::new();
    assert_eq!(poll_outcome(&result_rx), Polled::Empty);
    assert_eq!(counter.pending(), 0);
    assert!(!counter.hook_installed());

    drop(_result_tx);
    assert_eq!(poll_outcome(&result_rx), Polled::Disconnected);
    assert_eq!(counter.pending(), 0);
    let deregister = counter.on_outcome_drained();
    assert!(deregister);
    assert_eq!(counter.pending(), 0);
}

#[test]
fn outcomes_drain_order_independently() {
    let outcomes = vec![
        CallbackResult::Success(1, 200, Vec::new(), Vec::new(), Some(2)),
        CallbackResult::Failed(3, "x".to_string(), None),
        CallbackResult::FreeReference(4),
    ];
    let orders: Vec<Vec<usize>> = vec![vec![0, 1, 2], vec![2, 0, 1], vec![1, 2, 0]];
    let mut results = Vec::new();
    for order in orders {
        let mut counter = PendingCounter::new();
        for _ in 0..3 {
            counter.on_submit(true);
        }
        let mut released: Vec<i32> = Vec::new();
        let mut deregistrations = 0;
        for idx in order {
            for action in outcomes[idx].plan() {
                if let HostAction::Dereference(h) = action {
                    released.push(h);
                }
            }
            if counter.on_outcome_drained() {
                deregistrations += 1;
            }
        }
        released.sort();
        results.push((counter.pending(), counter.hook_installed(), deregistrations, released));
    }
    for r in &results {
        assert_eq!(r, &(0, false, 1, vec![1, 2, 3, 4]));
    }
}

#[test]
fn submit_after_worker_teardown_reports_the_defect() {
    let (mut dispatcher, work_rx) = Dispatcher::new();
    drop(work_rx);
    let r = dispatcher.submit(request(Some(1), None));
    assert_eq!(r, Err(SubmitError::ChannelDown));
    assert_eq!(dispatcher.counter.pending(), 0);
    assert!(!dispatcher.counter.hook_installed());
}

#[test]
fn completion_after_host_teardown_reports_the_defect() {
    let (result_tx, result_rx) = result_channel();
    drop(result_rx);
    let done = complete_request(&result_tx, ok_response(b"ok"), Some(1), None);
    assert_eq!(done, Completion::ChannelDown);
}
