//! Host-side action plans: each drained outcome is turned into the exact
//! ordered sequence of host-interpreter operations the drain loop must
//! perform — releasing handles, pushing callback arguments and invoking the
//! callback. Planning is pure; the embedding layer interprets the actions.

use vstd::prelude::*;
use vstd::multiset::Multiset;
use crate::http::LuaReference;
use crate::outcome::CallbackResult;
use crate::outcome::ResponseParts;
use crate::outcome::lemma_outcome_conserves_handles;
use crate::outcome::outcome_handles;
use crate::outcome::outcome_of;
use crate::outcome::request_handles;

verus! {

/// One operation for the host interpreter to perform, in plan order.
#[derive(Clone, Debug, PartialEq, Eq)]
pub enum HostAction {
    /// Release a retained handle from the host registry.
    Dereference(LuaReference),
    /// Push the value a handle refers to onto the host stack.
    PushReference(LuaReference),
    /// Push an integer argument.
    PushInteger(i64),
    /// Push a string argument.
    PushString(String),
    /// Push the fixed marker string handed to failure callbacks.
    PushFailureMarker,
    /// Push a byte-string argument.
    PushBinaryString(Vec<u8>),
    /// Create a table sized for the given array and hash parts.
    CreateTable(usize, usize),
    /// Pop a value and store it in the table below under the given key.
    SetField(String),
    /// Call the pushed function with this many arguments, ignoring errors.
    PCallIgnore(usize),
}

/// The mathematical shape of one host action.
pub enum HostActionModel {
    Dereference(int),
    PushReference(int),
    PushInteger(int),
    PushString(Seq<char>),
    PushFailureMarker,
    PushBinaryString(Seq<u8>),
    CreateTable(int, int),
    SetField(Seq<char>),
    PCallIgnore(int),
}

impl View for HostAction {
    type V = HostActionModel;

    open spec fn view(&self) -> HostActionModel {
        match self {
            HostAction::Dereference(r) => HostActionModel::Dereference(*r as int),
            HostAction::PushReference(r) => HostActionModel::PushReference(*r as int),
            HostAction::PushInteger(n) => HostActionModel::PushInteger(*n as int),
            HostAction::PushString(s) => HostActionModel::PushString(s@),
            HostAction::PushFailureMarker => HostActionModel::PushFailureMarker,
            HostAction::PushBinaryString(b) => HostActionModel::PushBinaryString(b@),
            HostAction::CreateTable(a, h) => HostActionModel::CreateTable(*a as int, *h as int),
            HostAction::SetField(k) => HostActionModel::SetField(k@),
            HostAction::PCallIgnore(n) => HostActionModel::PCallIgnore(*n as int),
        }
    }
}

/// The plan a vector of actions stands for.
pub open spec fn plan_of(v: Seq<HostAction>) -> Seq<HostActionModel> {
    v.map_values(|a: HostAction| a@)
}

/// Taking a plan's meaning distributes over concatenation.
proof fn lemma_plan_of_add(a: Seq<HostAction>, b: Seq<HostAction>)
    ensures
        plan_of(a + b) == plan_of(a) + plan_of(b),
{
    assert(plan_of(a + b) =~= plan_of(a) + plan_of(b));
}

/// The marker string handed to a failure callback in place of a status; a
/// compatibility placeholder that carries no information but must be emitted
/// verbatim.
pub fn failure_marker() -> (s: &'static str)
    ensures
        s@ == "unsuccessful"@,
{
    "unsuccessful"
}

/// An exact copy of a byte string.
fn clone_bytes(v: &Vec<u8>) -> (r: Vec<u8>)
    ensures
        r@ == v@,
{
    let mut r: Vec<u8> = Vec::new();
    let mut i: usize = 0;
    while i < v.len()
        invariant
            i <= v.len(),
            r@ =~= v@.subrange(0, i as int),
        decreases v.len() - i,
    {
        r.push(v[i]);
        i = i + 1;
        proof {
            assert(r@ =~= v@.subrange(0, i as int));
        }
    }
    proof {
        assert(r@ =~= v@);
    }
    r
}

/// Releasing an optional paired handle: one action, or none.
pub open spec fn opt_release(h: Option<LuaReference>) -> Seq<HostActionModel> {
    match h {
        Some(r) => seq![HostActionModel::Dereference(r as int)],
        None => Seq::empty(),
    }
}

/// The two actions that store one response header in the argument table.
pub open spec fn header_entry_actions(h: (String, Vec<u8>)) -> Seq<HostActionModel> {
    seq![
        HostActionModel::PushBinaryString(h.1@),
        HostActionModel::SetField(h.0@),
    ]
}

/// The actions that fill the header table, one entry after the other.
pub open spec fn header_table_actions(hs: Seq<(String, Vec<u8>)>) -> Seq<HostActionModel>
    decreases hs.len(),
{
    if hs.len() == 0 {
        Seq::empty()
    } else {
        header_table_actions(hs.drop_last()) + header_entry_actions(hs.last())
    }
}

/// The arguments pushed for a success callback: status, body, then the
/// header table.
pub open spec fn success_push_actions(
    status: u16,
    headers: Seq<(String, Vec<u8>)>,
    body: Seq<u8>,
) -> Seq<HostActionModel> {
    seq![
        HostActionModel::PushInteger(status as int),
        HostActionModel::PushBinaryString(body),
        HostActionModel::CreateTable(headers.len() as int, headers.len() as int),
    ] + header_table_actions(headers)
}

/// The arguments pushed for a failure callback: the fixed marker, then the
/// transport error message.
pub open spec fn failure_push_actions(error: Seq<char>) -> Seq<HostActionModel> {
    seq![HostActionModel::PushFailureMarker, HostActionModel::PushString(error)]
}

/// Everything the host must do for one drained outcome, in order. Handle
/// releases come first — before the callback itself is invoked — so that a
/// callback aborting control flow can never skip them.
pub open spec fn drain_actions(o: CallbackResult) -> Seq<HostActionModel> {
    match o {
        CallbackResult::Success(cb, status, headers, body, paired) => opt_release(paired) + seq![
            HostActionModel::PushReference(cb as int),
            HostActionModel::Dereference(cb as int),
        ] + success_push_actions(status, headers@, body@) + seq![HostActionModel::PCallIgnore(3)],
        CallbackResult::Failed(cb, error, paired) => opt_release(paired) + seq![
            HostActionModel::PushReference(cb as int),
            HostActionModel::Dereference(cb as int),
        ] + failure_push_actions(error@) + seq![HostActionModel::PCallIgnore(2)],
        CallbackResult::FreeReference(h) => seq![HostActionModel::Dereference(h as int)],
    }
}

impl CallbackResult {
    /// The argument-pushing actions for a success callback, mirroring the
    /// order the host expects: status, body, header table.
    pub fn push_success(status: u16, headers: &Vec<(String, Vec<u8>)>, body: &Vec<u8>) -> (r:
        Vec<HostAction>)
        ensures
            plan_of(r@) == success_push_actions(status, headers@, body@),
    {
        let mut r: Vec<HostAction> = Vec::new();
        r.push(HostAction::PushInteger(status as i64));
        r.push(HostAction::PushBinaryString(clone_bytes(body)));
        r.push(HostAction::CreateTable(headers.len(), headers.len()));
        let ghost prefix: Seq<HostActionModel> = plan_of(r@);
        proof {
            assert(prefix =~= seq![
                HostActionModel::PushInteger(status as int),
                HostActionModel::PushBinaryString(body@),
                HostActionModel::CreateTable(headers@.len() as int, headers@.len() as int),
            ]);
        }
        let mut i: usize = 0;
        while i < headers.len()
            invariant
                i <= headers.len(),
                plan_of(r@) =~= prefix + header_table_actions(headers@.subrange(0, i as int)),
            decreases headers.len() - i,
        {
            let ghost r0 = r@;
            let key = headers[i].0.clone();
            let value = clone_bytes(&headers[i].1);
            let ghost entry = seq![
                HostAction::PushBinaryString(value),
                HostAction::SetField(key),
            ];
            r.push(HostAction::PushBinaryString(value));
            r.push(HostAction::SetField(key));
            i = i + 1;
            proof {
                let sub = headers@.subrange(0, i as int);
                assert(r@ =~= r0 + entry);
                lemma_plan_of_add(r0, entry);
                assert(plan_of(entry) =~= header_entry_actions(headers@[i - 1]));
                assert(sub.drop_last() =~= headers@.subrange(0, i - 1));
                assert(sub.last() == headers@[i - 1]);
                assert(plan_of(r@) =~= prefix + header_table_actions(sub));
            }
        }
        proof {
            assert(headers@.subrange(0, headers@.len() as int) =~= headers@);
            assert(plan_of(r@) =~= success_push_actions(status, headers@, body@));
        }
        r
    }

    /// The argument-pushing actions for a failure callback: the fixed marker
    /// string, then the error message.
    pub fn push_failure(error: &String) -> (r: Vec<HostAction>)
        ensures
            plan_of(r@) == failure_push_actions(error@),
    {
        let mut r: Vec<HostAction> = Vec::new();
        r.push(HostAction::PushFailureMarker);
        r.push(HostAction::PushString(error.clone()));
        proof {
            assert(plan_of(r@) =~= failure_push_actions(error@));
        }
        r
    }

    /// The full plan for one drained outcome: release the unused paired
    /// handle, fetch and release the callback, push its arguments and invoke
    /// it — or, for a bare release, a single deregistration.
    pub fn plan(&self) -> (r: Vec<HostAction>)
        ensures
            plan_of(r@) == drain_actions(*self),
    {
        let mut r: Vec<HostAction> = Vec::new();
        match self {
            CallbackResult::Success(cb, status, headers, body, paired) => {
                if let Some(p) = paired {
                    r.push(HostAction::Dereference(*p));
                }
                r.push(HostAction::PushReference(*cb));
                r.push(HostAction::Dereference(*cb));
                let ghost r0 = r@;
                proof {
                    assert(plan_of(r0) =~= opt_release(*paired) + seq![
                        HostActionModel::PushReference(*cb as int),
                        HostActionModel::Dereference(*cb as int),
                    ]);
                }
                let mut args = CallbackResult::push_success(*status, headers, body);
                let ghost argsv = args@;
                r.append(&mut args);
                r.push(HostAction::PCallIgnore(3));
                proof {
                    assert(r@ =~= r0 + argsv + seq![HostAction::PCallIgnore(3)]);
                    lemma_plan_of_add(r0 + argsv, seq![HostAction::PCallIgnore(3)]);
                    lemma_plan_of_add(r0, argsv);
                    assert(plan_of(seq![HostAction::PCallIgnore(3)]) =~= seq![
                        HostActionModel::PCallIgnore(3),
                    ]);
                    assert(plan_of(r@) =~= drain_actions(*self));
                }
            },
            CallbackResult::Failed(cb, error, paired) => {
                if let Some(p) = paired {
                    r.push(HostAction::Dereference(*p));
                }
                r.push(HostAction::PushReference(*cb));
                r.push(HostAction::Dereference(*cb));
                let ghost r0 = r@;
                proof {
                    assert(plan_of(r0) =~= opt_release(*paired) + seq![
                        HostActionModel::PushReference(*cb as int),
                        HostActionModel::Dereference(*cb as int),
                    ]);
                }
                let mut args = CallbackResult::push_failure(error);
                let ghost argsv = args@;
                r.append(&mut args);
                r.push(HostAction::PCallIgnore(2));
                proof {
                    assert(r@ =~= r0 + argsv + seq![HostAction::PCallIgnore(2)]);
                    lemma_plan_of_add(r0 + argsv, seq![HostAction::PCallIgnore(2)]);
                    lemma_plan_of_add(r0, argsv);
                    assert(plan_of(seq![HostAction::PCallIgnore(2)]) =~= seq![
                        HostActionModel::PCallIgnore(2),
                    ]);
                    assert(plan_of(r@) =~= drain_actions(*self));
                }
            },
            CallbackResult::FreeReference(h) => {
                r.push(HostAction::Dereference(*h));
                proof {
                    assert(plan_of(r@) =~= drain_actions(*self));
                }
            },
        }
        r
    }
}

/// The handles one action releases: one for a release action, none else.
pub open spec fn action_releases(a: HostActionModel) -> Multiset<int> {
    match a {
        HostActionModel::Dereference(h) => Multiset::empty().insert(h),
        _ => Multiset::empty(),
    }
}

/// The handles a plan releases, with multiplicity.
pub open spec fn releases(p: Seq<HostActionModel>) -> Multiset<int>
    decreases p.len(),
{
    if p.len() == 0 {
        Multiset::empty()
    } else {
        releases(p.drop_last()).add(action_releases(p.last()))
    }
}

/// Releases distribute over plan concatenation.
proof fn lemma_releases_add(a: Seq<HostActionModel>, b: Seq<HostActionModel>)
    ensures
        releases(a + b) == releases(a).add(releases(b)),
    decreases b.len(),
{
    if b.len() == 0 {
        assert(a + b =~= a);
        assert(releases(b) =~= Multiset::empty());
        assert(releases(a + b) =~= releases(a).add(releases(b)));
    } else {
        lemma_releases_add(a, b.drop_last());
        assert((a + b).drop_last() =~= a + b.drop_last());
        assert((a + b).last() == b.last());
        assert(releases(a + b) =~= releases(a).add(releases(b)));
    }
}

/// A one-action plan releases what its action releases.
proof fn lemma_releases_single(a: HostActionModel)
    ensures
        releases(seq![a]) == action_releases(a),
{
    let s = seq![a];
    assert(s.drop_last() =~= Seq::<HostActionModel>::empty());
    assert(releases(Seq::<HostActionModel>::empty()) =~= Multiset::empty());
    assert(releases(s) =~= action_releases(a));
}

/// A two-action plan releases what its two actions release.
proof fn lemma_releases_pair(a: HostActionModel, b: HostActionModel)
    ensures
        releases(seq![a, b]) == action_releases(a).add(action_releases(b)),
{
    let s = seq![a, b];
    assert(s.drop_last() =~= seq![a]);
    assert(s.last() == b);
    lemma_releases_single(a);
    assert(releases(s) =~= action_releases(a).add(action_releases(b)));
}

/// A plan with no release action releases nothing.
proof fn lemma_releases_none(p: Seq<HostActionModel>)
    requires
        forall|i: int| 0 <= i < p.len() ==> !(#[trigger] p[i] is Dereference),
    ensures
        releases(p) == Multiset::<int>::empty(),
    decreases p.len(),
{
    if p.len() == 0 {
    } else {
        lemma_releases_none(p.drop_last());
        assert(!(p.last() is Dereference));
        assert(releases(p) =~= Multiset::<int>::empty());
    }
}

/// Every action that fills the header table pushes a value or stores a
/// field; none touches the handle registry or invokes anything.
proof fn lemma_header_table_kinds(hs: Seq<(String, Vec<u8>)>)
    ensures
        forall|i: int|
            0 <= i < header_table_actions(hs).len() ==> (#[trigger] header_table_actions(hs)[i]
                is PushBinaryString || header_table_actions(hs)[i] is SetField),
    decreases hs.len(),
{
    if hs.len() == 0 {
    } else {
        lemma_header_table_kinds(hs.drop_last());
    }
}

/// How many callback invocations a plan performs.
pub open spec fn invocations(p: Seq<HostActionModel>) -> nat
    decreases p.len(),
{
    if p.len() == 0 {
        0
    } else {
        invocations(p.drop_last()) + (if p.last() is PCallIgnore {
            1nat
        } else {
            0nat
        })
    }
}

/// Invocation counts distribute over plan concatenation.
proof fn lemma_invocations_add(a: Seq<HostActionModel>, b: Seq<HostActionModel>)
    ensures
        invocations(a + b) == invocations(a) + invocations(b),
    decreases b.len(),
{
    if b.len() == 0 {
        assert(a + b =~= a);
    } else {
        lemma_invocations_add(a, b.drop_last());
        assert((a + b).drop_last() =~= a + b.drop_last());
        assert((a + b).last() == b.last());
    }
}

/// A plan with no invocation action invokes nothing.
proof fn lemma_invocations_none(p: Seq<HostActionModel>)
    requires
        forall|i: int| 0 <= i < p.len() ==> !(#[trigger] p[i] is PCallIgnore),
    ensures
        invocations(p) == 0,
    decreases p.len(),
{
    if p.len() == 0 {
    } else {
        lemma_invocations_none(p.drop_last());
        assert(!(p.last() is PCallIgnore));
    }
}

/// A one-action plan invokes its action or nothing.
proof fn lemma_invocations_single(a: HostActionModel)
    ensures
        invocations(seq![a]) == (if a is PCallIgnore {
            1nat
        } else {
            0nat
        }),
{
    let s = seq![a];
    assert(s.drop_last() =~= Seq::<HostActionModel>::empty());
    assert(invocations(Seq::<HostActionModel>::empty()) == 0);
}

/// Exactly one callback invocation per drained outcome that carries a
/// callback, and none for a bare handle release.
pub proof fn lemma_plan_invokes_once(o: CallbackResult)
    ensures
        invocations(drain_actions(o)) == (match o {
            CallbackResult::FreeReference(_) => 0nat,
            _ => 1nat,
        }),
{
    match o {
        CallbackResult::Success(cb, status, headers, body, paired) => {
            let s1 = seq![
                HostActionModel::PushReference(cb as int),
                HostActionModel::Dereference(cb as int),
            ];
            let args = success_push_actions(status, headers@, body@);
            let tail = seq![HostActionModel::PCallIgnore(3)];
            let pre = opt_release(paired) + s1;
            lemma_invocations_add(pre + args, tail);
            lemma_invocations_single(tail[0]);
            lemma_header_table_kinds(headers@);
            assert(forall|i: int|
                0 <= i < (pre + args).len() ==> !(#[trigger] (pre + args)[i] is PCallIgnore));
            lemma_invocations_none(pre + args);
            assert(drain_actions(o) == (pre + args) + tail);
        },
        CallbackResult::Failed(cb, error, paired) => {
            let s1 = seq![
                HostActionModel::PushReference(cb as int),
                HostActionModel::Dereference(cb as int),
            ];
            let args = failure_push_actions(error@);
            let tail = seq![HostActionModel::PCallIgnore(2)];
            let pre = opt_release(paired) + s1;
            lemma_invocations_add(pre + args, tail);
            lemma_invocations_single(tail[0]);
            assert(forall|i: int|
                0 <= i < (pre + args).len() ==> !(#[trigger] (pre + args)[i] is PCallIgnore));
            lemma_invocations_none(pre + args);
            assert(drain_actions(o) == (pre + args) + tail);
        },
        CallbackResult::FreeReference(h) => {
            lemma_invocations_single(HostActionModel::Dereference(h as int));
        },
    }
}

/// Whether every handle release in a plan comes before every callback
/// invocation, so that a callback aborting control flow cannot skip one.
pub open spec fn releases_precede_calls(p: Seq<HostActionModel>) -> bool {
    forall|i: int, j: int|
        #![trigger p[i], p[j]]
        0 <= i < j < p.len() && p[j] is Dereference ==> !(p[i] is PCallIgnore)
}

/// The plan for an outcome releases exactly the handles the outcome carries
/// — each exactly once — and performs every release before it invokes the
/// callback.
pub proof fn lemma_plan_releases_outcome_handles(o: CallbackResult)
    ensures
        releases(drain_actions(o)) == outcome_handles(o),
        releases_precede_calls(drain_actions(o)),
{
    match o {
        CallbackResult::Success(cb, status, headers, body, paired) => {
            let s1 = seq![
                HostActionModel::PushReference(cb as int),
                HostActionModel::Dereference(cb as int),
            ];
            let args = success_push_actions(status, headers@, body@);
            let s3 = seq![
                HostActionModel::PushInteger(status as int),
                HostActionModel::PushBinaryString(body@),
                HostActionModel::CreateTable(headers@.len() as int, headers@.len() as int),
            ];
            let tail = seq![HostActionModel::PCallIgnore(3)];
            let pre = opt_release(paired) + s1;
            lemma_releases_add(pre + args, tail);
            lemma_releases_add(pre, args);
            lemma_releases_add(opt_release(paired), s1);
            lemma_releases_pair(s1[0], s1[1]);
            assert(s1[0] == HostActionModel::PushReference(cb as int));
            assert(s1[1] == HostActionModel::Dereference(cb as int));
            match paired {
                Some(p) => {
                    lemma_releases_single(HostActionModel::Dereference(p as int));
                },
                None => {
                    assert(releases(Seq::<HostActionModel>::empty()) =~= Multiset::empty());
                },
            }
            lemma_header_table_kinds(headers@);
            lemma_releases_none(args);
            lemma_releases_single(tail[0]);
            assert(drain_actions(o) == (pre + args) + tail);
            assert(releases(drain_actions(o)) =~= outcome_handles(o));
            lemma_deref_bound_gives_order(drain_actions(o), opt_release(paired).len() as int + 2);
        },
        CallbackResult::Failed(cb, error, paired) => {
            let s1 = seq![
                HostActionModel::PushReference(cb as int),
                HostActionModel::Dereference(cb as int),
            ];
            let args = failure_push_actions(error@);
            let tail = seq![HostActionModel::PCallIgnore(2)];
            let pre = opt_release(paired) + s1;
            lemma_releases_add(pre + args, tail);
            lemma_releases_add(pre, args);
            lemma_releases_add(opt_release(paired), s1);
            lemma_releases_pair(s1[0], s1[1]);
            assert(s1[0] == HostActionModel::PushReference(cb as int));
            assert(s1[1] == HostActionModel::Dereference(cb as int));
            match paired {
                Some(p) => {
                    lemma_releases_single(HostActionModel::Dereference(p as int));
                },
                None => {
                    assert(releases(Seq::<HostActionModel>::empty()) =~= Multiset::empty());
                },
            }
            lemma_releases_pair(args[0], args[1]);
            lemma_releases_single(tail[0]);
            assert(drain_actions(o) == (pre + args) + tail);
            assert(releases(drain_actions(o)) =~= outcome_handles(o));
            lemma_deref_bound_gives_order(drain_actions(o), opt_release(paired).len() as int + 2);
        },
        CallbackResult::FreeReference(h) => {
            lemma_releases_single(HostActionModel::Dereference(h as int));
            assert(releases(drain_actions(o)) =~= outcome_handles(o));
        },
    }
}

/// The end-to-end handle guarantee for one request: whatever the response
/// was, the plan for the outcome it owes releases exactly the handles the
/// request registered — each exactly once, and each before the callback is
/// invoked, so a callback aborting control flow cannot leak one. An outcome
/// is owed to nobody only when the request registered no handle at all, and
/// then nothing is there to leak.
pub proof fn lemma_request_handles_released(
    response: Result<ResponseParts, String>,
    success: Option<LuaReference>,
    failed: Option<LuaReference>,
)
    ensures
        match outcome_of(response, success, failed) {
            Some(o) => releases(drain_actions(o)) == request_handles(success, failed)
                && releases_precede_calls(drain_actions(o)),
            None => success is None && failed is None,
        },
{
    lemma_outcome_conserves_handles(response, success, failed);
    match outcome_of(response, success, failed) {
        Some(o) => {
            lemma_plan_releases_outcome_handles(o);
        },
        None => {
        },
    }
}

/// When every release sits below some bound and nothing below the bound is
/// an invocation, releases precede invocations.
proof fn lemma_deref_bound_gives_order(p: Seq<HostActionModel>, bound: int)
    requires
        forall|j: int| 0 <= j < p.len() && #[trigger] p[j] is Dereference ==> j < bound,
        forall|i: int| 0 <= i < bound && i < p.len() ==> !(#[trigger] p[i] is PCallIgnore),
    ensures
        releases_precede_calls(p),
{
}

} // verus!
