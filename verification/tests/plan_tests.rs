use gmsv_reqwest::outcome::CallbackResult;
use gmsv_reqwest::plan::HostAction;
use gmsv_reqwest::plan::failure_marker;

#[test]
fn marker_is_emitted_verbatim() {
    assert_eq!(failure_marker(), "unsuccessful");
}

#[test]
fn free_reference_plan_is_one_release() {
    let plan = CallbackResult::FreeReference(5).plan();
    assert_eq!(plan, vec![HostAction::Dereference(5)]);
}

#[test]
fn failure_plan_exact_order() {
    let o = CallbackResult::Failed(9, "connection refused".to_string(), Some(3));
    assert_eq!(
        o.plan(),
        vec![
            HostAction::Dereference(3),
            HostAction::PushReference(9),
            HostAction::Dereference(9),
            HostAction::PushFailureMarker,
            HostAction::PushString("connection refused".to_string()),
            HostAction::PCallIgnore(2),
        ]
    );
}

#[test]
fn failure_plan_without_paired_handle() {
    let o = CallbackResult::Failed(9, "timed out".to_string(), None);
    assert_eq!(
        o.plan(),
        vec![
            HostAction::PushReference(9),
            HostAction::Dereference(9),
            HostAction::PushFailureMarker,
            HostAction::PushString("timed out".to_string()),
            HostAction::PCallIgnore(2),
        ]
    );
}

#[test]
fn success_plan_exact_order() {
    let o = CallbackResult::Success(
        11,
        200,
        vec![
            ("Content-Length".to_string(), b"2".to_vec()),
            ("X-Kind".to_string(), b"demo".to_vec()),
        ],
        b"ok".to_vec(),
        Some(5),
    );
    assert_eq!(
        o.plan(),
        vec![
            HostAction::Dereference(5),
            HostAction::PushReference(11),
            HostAction::Dereference(11),
            HostAction::PushInteger(200),
            HostAction::PushBinaryString(b"ok".to_vec()),
            HostAction::CreateTable(2, 2),
            HostAction::PushBinaryString(b"2".to_vec()),
            HostAction::SetField("Content-Length".to_string()),
            HostAction::PushBinaryString(b"demo".to_vec()),
            HostAction::SetField("X-Kind".to_string()),
            HostAction::PCallIgnore(3),
        ]
    );
}

#[test]
fn push_arguments_for_success() {
    let args = CallbackResult::push_success(404, &Vec::new(), &b"missing".to_vec());
    assert_eq!(
        args,
        vec![
            HostAction::PushInteger(404),
            HostAction::PushBinaryString(b"missing".to_vec()),
            HostAction::CreateTable(0, 0),
        ]
    );
}

#[test]
fn push_arguments_for_failure() {
    let args = CallbackResult::push_failure(&"oops".to_string());
    assert_eq!(
        args,
        vec![
            HostAction::PushFailureMarker,
            HostAction::PushString("oops".to_string()),
        ]
    );
}

fn released_handles(plan: &[HostAction]) -> Vec<i32> {
    let mut v: Vec<i32> = plan
        .iter()
        .filter_map(|a| match a {
            HostAction::Dereference(h) => Some(*h),
            _ => None,
        })
        .collect();
    v.sort();
    v
}

#[test]
fn every_handle_released_exactly_once_before_invocation() {
    let outcomes = vec![
        CallbackResult::Success(1, 200, Vec::new(), Vec::new(), Some(2)),
        CallbackResult::Success(3, 204, Vec::new(), Vec::new(), None),
        CallbackResult::Failed(4, "x".to_string(), Some(5)),
        CallbackResult::Failed(6, "y".to_string(), None),
        CallbackResult::FreeReference(7),
    ];
    let expected: Vec<Vec<i32>> =
        vec![vec![1, 2], vec![3], vec![4, 5], vec![6], vec![7]];
    for (o, handles) in outcomes.iter().zip(expected) {
        let plan = o.plan();
        assert_eq!(released_handles(&plan), handles);
        let first_call = plan
            .iter()
            .position(|a| matches!(a, HostAction::PCallIgnore(_)));
        let last_release = plan
            .iter()
            .rposition(|a| matches!(a, HostAction::Dereference(_)));
        if let (Some(call), Some(release)) = (first_call, last_release) {
            assert!(release < call);
        }
        let calls = plan
            .iter()
            .filter(|a| matches!(a, HostAction::PCallIgnore(_)))
            .count();
        let expected_calls = match o {
            CallbackResult::FreeReference(_) => 0,
            _ => 1,
        };
        assert_eq!(calls, expected_calls);
    }
}
