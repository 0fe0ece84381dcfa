//! What holds of every run of an operation on a machine, whatever the host
//! answers.

use crate::error::ErrorKind;
use crate::handler::vm::{
    bridge_of, clashes, entity_holds, fetching, is_filled, next, opening, refusal, taken, Goal,
    Stage,
    TaskView,
};
use crate::handler::StepView;
use crate::host::{entities_of, EntityView, Kind, RequestView, Response};
use crate::model::VmView;
use crate::net::{iface_dev_text, is_generated_mac, lemma_generated_mac_len};
use crate::provision::DeviceOpView;
use crate::store::{holds_mac, lemma_mac_index};
use vstd::prelude::*;

verus! {

/// A run of an operation: the requests that it made, the responses that it
/// took, and where it stands.
pub struct Trace {
    pub requests: Seq<RequestView>,
    pub answered: Seq<Response>,
    pub end: StepView<TaskView>,
}

/// The request that a step makes, if it makes one.
pub open spec fn pending(s: StepView<TaskView>) -> Seq<RequestView> {
    match s {
        StepView::Ask(_, q) => seq![q],
        _ => Seq::empty(),
    }
}

/// A run after one more response: the operation takes it and goes on,
/// unless it has ended.
pub open spec fn answered_with(before: Trace, r: Response) -> Trace {
    match before.end {
        StepView::Ask(t, _) => {
            let s = next(t, r);
            Trace {
                requests: before.requests + pending(s),
                answered: before.answered.push(r),
                end: s,
            }
        },
        _ => before,
    }
}

/// The run that starts with `first` and is answered with `rs`, one response
/// after the other; responses that come after the operation has ended are
/// not taken.
pub open spec fn run(first: StepView<TaskView>, rs: Seq<Response>) -> Trace
    decreases rs.len(),
{
    if rs.len() == 0 {
        Trace { requests: pending(first), answered: Seq::empty(), end: first }
    } else {
        answered_with(run(first, rs.drop_last()), rs.last())
    }
}

/// The names of the networks that the requests look up, in order.
pub open spec fn lookups(reqs: Seq<RequestView>) -> Seq<Seq<char>>
    decreases reqs.len(),
{
    if reqs.len() == 0 {
        Seq::empty()
    } else {
        let rest = lookups(reqs.drop_last());
        match reqs.last() {
            RequestView::Get { kind: Kind::Network, name, owner } => rest.push(name),
            _ => rest,
        }
    }
}

/// The operations that the requests ask of the network provisioner, in
/// order.
pub open spec fn devices(reqs: Seq<RequestView>) -> Seq<DeviceOpView>
    decreases reqs.len(),
{
    if reqs.len() == 0 {
        Seq::empty()
    } else {
        let rest = devices(reqs.drop_last());
        match reqs.last() {
            RequestView::Device(op) => rest.push(op),
            _ => rest,
        }
    }
}

/// Whether a request changes the store.
pub open spec fn is_write(q: RequestView) -> bool {
    q is Create || q is Update || q is Delete
}

/// The requests that change the store, in order.
pub open spec fn writes(reqs: Seq<RequestView>) -> Seq<RequestView>
    decreases reqs.len(),
{
    if reqs.len() == 0 {
        Seq::empty()
    } else {
        let rest = writes(reqs.drop_last());
        if is_write(reqs.last()) {
            rest.push(reqs.last())
        } else {
            rest
        }
    }
}

/// The verbs that the requests ask of the backend adapter, in order.
pub open spec fn scripts(reqs: Seq<RequestView>) -> Seq<RequestView>
    decreases reqs.len(),
{
    if reqs.len() == 0 {
        Seq::empty()
    } else {
        let rest = scripts(reqs.drop_last());
        if reqs.last() is Backend {
            rest.push(reqs.last())
        } else {
            rest
        }
    }
}

/// The request that writes a machine to the store: it adds the machine
/// when the machine is created, and replaces it when it is updated.
pub open spec fn persisting(goal: Goal, vm: VmView) -> RequestView {
    if goal == Goal::Create {
        RequestView::Create(EntityView::Vm(vm))
    } else {
        RequestView::Update(EntityView::Vm(vm))
    }
}

/// The request to the backend adapter that creates a machine.
pub open spec fn creating(vm: VmView) -> RequestView {
    RequestView::Backend {
        verb: crate::backend::Verb::VmCreate,
        subject: crate::backend::SubjectView::Vm(vm),
        snapshot: None,
    }
}

/// The bridges of the networks that the store handed out, in order.
pub open spec fn resolved(rs: Seq<Response>) -> Seq<Seq<char>>
    decreases rs.len(),
{
    if rs.len() == 0 {
        Seq::empty()
    } else {
        let rest = resolved(rs.drop_last());
        match rs.last() {
            Response::Entity(Some(crate::host::Entity::Network(net))) => rest.push(bridge_of(net@)),
            _ => rest,
        }
    }
}

/// Whether the host reported a failure.
pub open spec fn has_failure(rs: Seq<Response>) -> bool {
    exists|k: int| 0 <= k < rs.len() && #[trigger] rs[k] is Failed
}

/// The provisioning of the first `n` interfaces of the machine called
/// `name`: for each in order, its TAP device is made and then attached to
/// its bridge.
pub open spec fn plan(name: Seq<char>, bridges: Seq<Seq<char>>, n: int) -> Seq<DeviceOpView>
    decreases n,
{
    if n <= 0 {
        Seq::empty()
    } else {
        plan(name, bridges, n - 1).push(
            DeviceOpView::TapCreate { name: iface_dev_text(name, n - 1) },
        ).push(
            DeviceOpView::BridgeAttach {
                interface: iface_dev_text(name, n - 1),
                bridge: bridges[n - 1],
            },
        )
    }
}

/// The teardown of the first `n` interfaces of the machine called `name`:
/// the TAP device of each is removed, in order.
pub open spec fn removals(name: Seq<char>, n: int) -> Seq<DeviceOpView>
    decreases n,
{
    if n <= 0 {
        Seq::empty()
    } else {
        removals(name, n - 1).push(DeviceOpView::TapDelete { name: iface_dev_text(name, n - 1) })
    }
}

/// The networks that the interfaces of a machine name, in order.
pub open spec fn networks(vm: VmView) -> Seq<Seq<char>> {
    Seq::new(vm.interfaces.len(), |i: int| vm.interfaces[i].network)
}

/// What holds while the creation or the update of a machine waits for an
/// answer.
pub open spec fn on_track(t: TaskView, reqs: Seq<RequestView>, answered: Seq<Response>) -> bool {
    let n = t.vm.interfaces.len() as int;
    let i = t.index;
    let name = t.vm.name;
    &&& t.goal == Goal::Create || t.goal == Goal::Update
    &&& t.stage != Stage::Backend && t.stage != Stage::Rollback ==> scripts(reqs).len() == 0
    &&& t.stage == Stage::Name || t.stage == Stage::Macs || t.stage == Stage::Backend || t.stage
        == Stage::Rollback ==> t.goal == Goal::Create
    &&& match t.stage {
        Stage::Image | Stage::Name => {
            &&& resolved(answered) == t.bridges
            &&& t.bridges.len() == 0
            &&& lookups(reqs).len() == 0
            &&& devices(reqs).len() == 0
            &&& writes(reqs).len() == 0
        },
        Stage::Network => {
            &&& resolved(answered) == t.bridges
            &&& 0 <= i < n
            &&& t.bridges.len() == i
            &&& lookups(reqs) == networks(t.vm).subrange(0, i + 1)
            &&& devices(reqs) == plan(name, t.bridges, i)
            &&& writes(reqs).len() == 0
        },
        Stage::Tap => {
            &&& resolved(answered) == t.bridges
            &&& 0 <= i < n
            &&& t.bridges.len() == i + 1
            &&& lookups(reqs) == networks(t.vm).subrange(0, i + 1)
            &&& devices(reqs) == plan(name, t.bridges, i).push(
                DeviceOpView::TapCreate { name: iface_dev_text(name, i) },
            )
            &&& writes(reqs).len() == 0
        },
        Stage::Attach => {
            &&& resolved(answered) == t.bridges
            &&& 0 <= i < n
            &&& t.bridges.len() == i + 1
            &&& lookups(reqs) == networks(t.vm).subrange(0, i + 1)
            &&& devices(reqs) == plan(name, t.bridges, i + 1)
            &&& writes(reqs).len() == 0
        },
        Stage::Macs => {
            &&& resolved(answered) == t.bridges
            &&& t.bridges.len() == n
            &&& lookups(reqs) == networks(t.vm)
            &&& devices(reqs) == plan(name, t.bridges, n)
            &&& writes(reqs).len() == 0
        },
        Stage::Persist | Stage::Backend => {
            &&& resolved(answered) == t.bridges
            &&& t.bridges.len() == n
            &&& lookups(reqs) == networks(t.vm)
            &&& devices(reqs) == plan(name, t.bridges, n)
            &&& writes(reqs) == seq![persisting(t.goal, t.vm)]
            &&& t.stage == Stage::Backend ==> scripts(reqs) == seq![creating(t.vm)]
        },
        Stage::Rollback => has_failure(answered),
        _ => false,
    }
}

/// What holds of a run of the creation or the update of the machine `vm`,
/// which is stamped with its node.
///
/// While it waits, it is on track. When it has ended well: the networks of
/// the interfaces were looked up in order; the store handed out one network
/// for each; for each interface in order, and for nothing else, a TAP
/// device of the derived name was made and attached to the bridge of that
/// network; the store was changed by one request, which writes `vm`; and the
/// backend was asked to create the machine, once, if the machine was
/// created, and for nothing if it was updated. When it has ended with a
/// conflict and the host reported no failure: the store was not changed.
pub open spec fn sound(goal: Goal, vm: VmView, trace: Trace) -> bool {
    match trace.end {
        StepView::Ask(t, _) => t.vm == vm && t.goal == goal && on_track(
            t,
            trace.requests,
            trace.answered,
        ),
        StepView::Done(_) => {
            &&& scripts(trace.requests) == (if goal == Goal::Create {
                seq![creating(vm)]
            } else {
                Seq::empty()
            })
            &&& resolved(trace.answered).len() == vm.interfaces.len()
            &&& lookups(trace.requests) == networks(vm)
            &&& devices(trace.requests) == plan(
                vm.name,
                resolved(trace.answered),
                vm.interfaces.len() as int,
            )
            &&& writes(trace.requests) == seq![persisting(goal, vm)]
        },
        StepView::Failed(kind, _) => kind == ErrorKind::Conflict && !has_failure(trace.answered)
            ==> writes(trace.requests).len() == 0,
    }
}

proof fn lemma_push_request(reqs: Seq<RequestView>, q: RequestView)
    ensures
        lookups(reqs.push(q)) == (match q {
            RequestView::Get { kind: Kind::Network, name, owner } => lookups(reqs).push(name),
            _ => lookups(reqs),
        }),
        devices(reqs.push(q)) == (match q {
            RequestView::Device(op) => devices(reqs).push(op),
            _ => devices(reqs),
        }),
        writes(reqs.push(q)) == (if is_write(q) {
            writes(reqs).push(q)
        } else {
            writes(reqs)
        }),
        scripts(reqs.push(q)) == (if q is Backend {
            scripts(reqs).push(q)
        } else {
            scripts(reqs)
        }),
        reqs + seq![q] == reqs.push(q),
        reqs + Seq::<RequestView>::empty() == reqs,
{
    assert(reqs.push(q).drop_last() =~= reqs);
    assert(reqs + seq![q] =~= reqs.push(q));
    assert(reqs + Seq::<RequestView>::empty() =~= reqs);
}

proof fn lemma_push_response(rs: Seq<Response>, r: Response)
    ensures
        resolved(rs.push(r)) == (match r {
            Response::Entity(Some(crate::host::Entity::Network(net))) => resolved(rs).push(
                bridge_of(net@),
            ),
            _ => resolved(rs),
        }),
        has_failure(rs.push(r)) <==> has_failure(rs) || r is Failed,
{
    assert(rs.push(r).drop_last() =~= rs);
    if has_failure(rs) {
        let k = choose|k: int| 0 <= k < rs.len() && #[trigger] rs[k] is Failed;
        assert(rs.push(r)[k] is Failed);
    }
    if r is Failed {
        assert(rs.push(r)[rs.len() as int] is Failed);
    }
    if has_failure(rs.push(r)) {
        let k = choose|k: int| 0 <= k < rs.push(r).len() && #[trigger] rs.push(r)[k] is Failed;
        if k < rs.len() {
            assert(rs[k] is Failed);
        }
    }
}

/// A plan reads only the bridges of the interfaces that it provisions.
proof fn lemma_plan_prefix(name: Seq<char>, a: Seq<Seq<char>>, b: Seq<Seq<char>>, n: int)
    requires
        n <= a.len(),
        n <= b.len(),
        forall|k: int| 0 <= k < n ==> a[k] == b[k],
    ensures
        plan(name, a, n) == plan(name, b, n),
    decreases n,
{
    if n > 0 {
        lemma_plan_prefix(name, a, b, n - 1);
    }
}

proof fn lemma_first(t: TaskView, q: RequestView)
    requires
        t.goal == Goal::Create || t.goal == Goal::Update,
        t.bridges.len() == 0,
        match t.stage {
            Stage::Image => q is Get && !(q matches RequestView::Get { kind: Kind::Network, .. }),
            Stage::Name => t.goal == Goal::Create && q is Get && !(q matches RequestView::Get {
                kind: Kind::Network,
                ..
            }),
            Stage::Network => t.index == 0 && t.vm.interfaces.len() > 0 && q == (RequestView::Get {
                kind: Kind::Network,
                name: t.vm.interfaces[0].network,
                owner: Seq::empty(),
            }),
            Stage::Persist => t.goal == Goal::Update && t.vm.interfaces.len() == 0 && q
                == persisting(t.goal, t.vm),
            _ => false,
        },
    ensures
        on_track(t, seq![q], Seq::empty()),
{
    lemma_push_request(Seq::empty(), q);
    assert(Seq::<RequestView>::empty().push(q) =~= seq![q]);
    assert(t.bridges =~= Seq::<Seq<char>>::empty());
    assert(resolved(Seq::<Response>::empty()) =~= Seq::<Seq<char>>::empty());
    if t.stage == Stage::Network {
        assert(networks(t.vm).subrange(0, 1) =~= seq![t.vm.interfaces[0].network]);
    }
    if t.stage == Stage::Persist {
        assert(networks(t.vm) =~= Seq::<Seq<char>>::empty());
        assert(lookups(seq![q]) =~= networks(t.vm));
        assert(devices(seq![q]) =~= plan(t.vm.name, t.bridges, 0));
        assert(writes(seq![q]) =~= seq![persisting(t.goal, t.vm)]);
    }
}

/// Every step of a creation or an update that is on track leaves the run
/// sound.
proof fn lemma_step(t: TaskView, reqs: Seq<RequestView>, answered: Seq<Response>, r: Response)
    requires
        on_track(t, reqs, answered),
    ensures
        sound(
            t.goal,
            t.vm,
            Trace {
                requests: reqs + pending(next(t, r)),
                answered: answered.push(r),
                end: next(t, r),
            },
        ),
{
    let s = next(t, r);
    let n = t.vm.interfaces.len() as int;
    let i = t.index;
    lemma_push_response(answered, r);
    match s {
        StepView::Ask(t2, q) => {
            lemma_push_request(reqs, q);
            assert(t2.vm == t.vm);
            if t.stage == Stage::Name || t.stage == Stage::Image {
                assert(lookups(reqs) =~= Seq::<Seq<char>>::empty());
                assert(devices(reqs) =~= Seq::<DeviceOpView>::empty());
                assert(t.bridges =~= Seq::<Seq<char>>::empty());
            }
            if t2.stage == Stage::Persist {
                assert(writes(reqs) =~= Seq::<RequestView>::empty());
                if t.stage != Stage::Attach && t.stage != Stage::Macs {
                    assert(networks(t.vm) =~= Seq::<Seq<char>>::empty());
                }
                assert(networks(t.vm).subrange(0, n) =~= networks(t.vm));
            }
            if t2.stage == Stage::Backend {
                assert(scripts(reqs) =~= Seq::<RequestView>::empty());
            }
            if t2.stage == Stage::Network {
                let j = t2.index;
                assert(networks(t.vm).subrange(0, j + 1) =~= networks(t.vm).subrange(0, j).push(
                    t.vm.interfaces[j].network,
                ));
                if t.stage != Stage::Attach {
                    assert(networks(t.vm).subrange(0, 0) =~= Seq::<Seq<char>>::empty());
                }
            }
            if t2.stage == Stage::Macs {
                assert(networks(t.vm).subrange(0, n) =~= networks(t.vm));
                if t.stage != Stage::Attach {
                    assert(networks(t.vm) =~= Seq::<Seq<char>>::empty());
                }
            }
            if t2.stage == Stage::Tap {
                lemma_plan_prefix(t.vm.name, t.bridges, t2.bridges, i);
            }
            assert(on_track(t2, reqs + pending(s), answered.push(r)));
        },
        StepView::Done(_) => {
            assert(reqs + Seq::<RequestView>::empty() =~= reqs);
            assert(t.stage == Stage::Backend || t.stage == Stage::Persist);
            if t.stage == Stage::Persist {
                assert(scripts(reqs) =~= Seq::<RequestView>::empty());
            }
        },
        StepView::Failed(kind, _) => {
            assert(reqs + Seq::<RequestView>::empty() =~= reqs);
        },
    }
}

/// Every run of the creation and of the update of a machine is sound.
pub proof fn lemma_sound(node: int, goal: Goal, vm: VmView, rs: Seq<Response>)
    requires
        goal == Goal::Create || goal == Goal::Update,
    ensures
        sound(goal, VmView { node, ..vm }, run(opening(node, goal, vm), rs)),
    decreases rs.len(),
{
    let first = opening(node, goal, vm);
    if rs.len() == 0 {
        match first {
            StepView::Ask(t, q) => {
                lemma_first(t, q);
            },
            StepView::Done(_) => {},
            StepView::Failed(_, _) => {
                assert(writes(Seq::<RequestView>::empty()).len() == 0);
            },
        }
    } else {
        lemma_sound(node, goal, vm, rs.drop_last());
        let before = run(first, rs.drop_last());
        match before.end {
            StepView::Ask(t, _) => {
                lemma_step(t, before.requests, before.answered, rs.last());
            },
            _ => {},
        }
    }
}

/// For every request to create a machine with N interfaces: a run that
/// ends well has looked up the network of each interface, in order; has
/// made exactly N TAP devices, under the names derived from the machine's
/// name and the interfaces' positions, and attached each to the bridge of
/// the network that the store handed out for its interface; and has added
/// to the store one machine, which has N interfaces, each with a MAC
/// address that is not empty.
pub proof fn law_creation_provisions_every_interface(
    node: int,
    asked: VmView,
    filled: VmView,
    rs: Seq<Response>,
)
    requires
        is_filled(asked, filled),
        run(opening(node, Goal::Create, filled), rs).end is Done,
    ensures
        ({
            let trace = run(opening(node, Goal::Create, filled), rs);
            let made = VmView { node, ..filled };
            let n = asked.interfaces.len() as int;
            &&& lookups(trace.requests) == networks(asked)
            &&& resolved(trace.answered).len() == n
            &&& devices(trace.requests) == plan(asked.name, resolved(trace.answered), n)
            &&& devices(trace.requests).len() == 2 * n
            &&& writes(trace.requests) == seq![RequestView::Create(EntityView::Vm(made))]
            &&& scripts(trace.requests) == seq![creating(made)]
            &&& made.interfaces.len() == n
            &&& forall|i: int| 0 <= i < n ==> (#[trigger] made.interfaces[i]).mac.len() > 0
        }),
{
    lemma_sound(node, Goal::Create, filled, rs);
    let trace = run(opening(node, Goal::Create, filled), rs);
    let n = asked.interfaces.len() as int;
    assert(networks(filled) =~= networks(asked));
    lemma_plan_len(asked.name, resolved(trace.answered), n);
    assert forall|i: int| 0 <= i < n implies (#[trigger] filled.interfaces[i]).mac.len() > 0 by {
        let a = asked.interfaces[i];
        if a.mac.len() == 0 {
            lemma_generated_mac_len(filled.interfaces[i].mac);
        }
    }
}

/// An update of a machine with N interfaces that ends well has provisioned
/// every interface as a creation does, has replaced the machine in the
/// store, and has asked nothing of the backend: no script was run.
pub proof fn law_update_provisions_and_runs_no_script(
    node: int,
    asked: VmView,
    filled: VmView,
    rs: Seq<Response>,
)
    requires
        is_filled(asked, filled),
        run(opening(node, Goal::Update, filled), rs).end is Done,
    ensures
        ({
            let trace = run(opening(node, Goal::Update, filled), rs);
            let made = VmView { node, ..filled };
            let n = asked.interfaces.len() as int;
            &&& lookups(trace.requests) == networks(asked)
            &&& devices(trace.requests) == plan(asked.name, resolved(trace.answered), n)
            &&& writes(trace.requests) == seq![RequestView::Update(EntityView::Vm(made))]
            &&& scripts(trace.requests).len() == 0
        }),
{
    lemma_sound(node, Goal::Update, filled, rs);
    assert(networks(filled) =~= networks(asked));
}

/// Whether a response hands out an image.
pub open spec fn gives_image(r: Response) -> bool {
    match r {
        Response::Entity(Some(crate::host::Entity::Image(_))) => true,
        _ => false,
    }
}

/// Whether a response hands out a network.
pub open spec fn gives_network(r: Response) -> bool {
    match r {
        Response::Entity(Some(crate::host::Entity::Network(_))) => true,
        _ => false,
    }
}

/// Whether a response says that the store holds no such entity.
pub open spec fn gives_nothing(r: Response) -> bool {
    match r {
        Response::Entity(None) => true,
        _ => false,
    }
}

/// Whether a response lists an inventory in which no machine holds a MAC
/// address of `vm`.
pub open spec fn gives_no_clash(vm: VmView, r: Response) -> bool {
    match r {
        Response::Entities(list) => !clashes(vm, entities_of(list@)),
        _ => false,
    }
}

/// How many responses the creation of `vm` takes before it provisions the
/// first interface: one for the image, if the machine names one, and one
/// for the free name.
pub open spec fn lead(vm: VmView) -> int {
    if vm.image.len() > 0 {
        2
    } else {
        1
    }
}

/// Whether the three responses for the interface at `i` are a network and
/// the word, twice, that a device request was carried out.
pub open spec fn provisions(vm: VmView, rs: Seq<Response>, i: int) -> bool {
    let at = lead(vm) + 3 * i;
    &&& gives_network(rs[at])
    &&& rs[at + 1] is Done
    &&& rs[at + 2] is Done
}

/// Whether `rs` carries out what the creation of `vm` asks, the question
/// for the free name aside: the image exists, the network of each interface
/// exists, each device request is carried out, no machine of the inventory
/// holds a MAC address of `vm`, the store takes the machine, and the backend
/// creates it.
pub open spec fn carries_out(vm: VmView, rs: Seq<Response>) -> bool {
    let n = vm.interfaces.len() as int;
    let o = lead(vm);
    &&& rs.len() == o + 3 * n + 3
    &&& vm.image.len() > 0 ==> gives_image(rs[0])
    &&& forall|i: int| 0 <= i < n ==> #[trigger] provisions(vm, rs, i)
    &&& gives_no_clash(vm, rs[o + 3 * n])
    &&& rs[o + 3 * n + 1] is Done
    &&& rs[o + 3 * n + 2] is Backend
}

/// The response to the question whether the name of `vm` is free.
pub open spec fn name_answer(vm: VmView, rs: Seq<Response>) -> Response {
    rs[lead(vm) - 1]
}

/// Whether `rs` answers every request of the creation of `vm` favourably:
/// the name is free, and the rest is carried out.
pub open spec fn answers_well(vm: VmView, rs: Seq<Response>) -> bool {
    carries_out(vm, rs) && gives_nothing(name_answer(vm, rs))
}

/// Whether a creation of `vm` waits for the network of the interface at
/// `i`, or, past the last interface, for the inventory.
pub open spec fn at_interface(vm: VmView, end: StepView<TaskView>, i: int) -> bool {
    match end {
        StepView::Ask(t, _) => {
            &&& t.vm == vm
            &&& t.goal == Goal::Create
            &&& t.index == i
            &&& t.bridges.len() == i
            &&& t.stage == (if i < vm.interfaces.len() {
                Stage::Network
            } else {
                Stage::Macs
            })
        },
        _ => false,
    }
}

/// A run after the first `k + 1` responses is the run after the first `k`,
/// answered with the next one.
proof fn lemma_run_next(first: StepView<TaskView>, rs: Seq<Response>, k: int)
    requires
        0 <= k < rs.len(),
    ensures
        run(first, rs.subrange(0, k + 1)) == answered_with(run(first, rs.subrange(0, k)), rs[k]),
{
    let p = rs.subrange(0, k + 1);
    assert(p.drop_last() =~= rs.subrange(0, k));
    assert(p.last() == rs[k]);
}

/// A creation that is answered favourably comes to each interface in turn,
/// and past the last one to the look through the inventory.
proof fn lemma_reaches_interface(node: int, vm: VmView, rs: Seq<Response>, i: int)
    requires
        refusal(vm) is None,
        vm.interfaces.len() <= usize::MAX,
        answers_well(VmView { node, ..vm }, rs),
        0 <= i <= vm.interfaces.len(),
    ensures
        at_interface(
            VmView { node, ..vm },
            run(opening(node, Goal::Create, vm), rs.subrange(0, lead(vm) + 3 * i)).end,
            i,
        ),
    decreases i,
{
    let made = VmView { node, ..vm };
    let first = opening(node, Goal::Create, vm);
    let o = lead(vm);
    if i == 0 {
        assert(rs.subrange(0, 0) =~= Seq::<Response>::empty());
        assert(run(first, rs.subrange(0, 0)).end == first);
        lemma_run_next(first, rs, 0);
        if vm.image.len() > 0 {
            lemma_run_next(first, rs, 1);
        }
    } else {
        lemma_reaches_interface(node, vm, rs, i - 1);
        let k = o + 3 * (i - 1);
        assert(provisions(made, rs, i - 1));
        lemma_run_next(first, rs, k);
        lemma_run_next(first, rs, k + 1);
        lemma_run_next(first, rs, k + 2);
        let t0 = run(first, rs.subrange(0, k)).end;
        let t1 = run(first, rs.subrange(0, k + 1)).end;
        let t2 = run(first, rs.subrange(0, k + 2)).end;
        assert(t1 matches StepView::Ask(t, _) && t.stage == Stage::Tap && t.index == i - 1
            && t.bridges.len() == i && t.vm == made && t.goal == Goal::Create);
        assert(t2 matches StepView::Ask(t, _) && t.stage == Stage::Attach && t.index == i - 1
            && t.bridges.len() == i && t.vm == made && t.goal == Goal::Create);
        assert(o + 3 * i == k + 3);
    }
}

/// A request to create a machine that is not refused and whose every
/// request the host answers favourably ends well.
pub proof fn lemma_ends_well(node: int, vm: VmView, rs: Seq<Response>)
    requires
        refusal(vm) is None,
        vm.interfaces.len() <= usize::MAX,
        answers_well(VmView { node, ..vm }, rs),
    ensures
        run(opening(node, Goal::Create, vm), rs).end is Done,
{
    let first = opening(node, Goal::Create, vm);
    let n = vm.interfaces.len() as int;
    let k = lead(vm) + 3 * n;
    lemma_reaches_interface(node, vm, rs, n);
    lemma_run_next(first, rs, k);
    lemma_run_next(first, rs, k + 1);
    lemma_run_next(first, rs, k + 2);
    let t1 = run(first, rs.subrange(0, k + 1)).end;
    assert(t1 matches StepView::Ask(t, _) && t.stage == Stage::Persist && t.goal == Goal::Create);
    let t2 = run(first, rs.subrange(0, k + 2)).end;
    assert(t2 matches StepView::Ask(t, _) && t.stage == Stage::Backend);
    assert(rs.subrange(0, k + 3) =~= rs);
}

/// Every valid request to create a machine with N interfaces, answered
/// favourably, ends well, and then the machine is provisioned in full.
///
/// The request is valid when it is not refused for its name or backend.
/// The host answers favourably when the image exists, the name is free, the
/// network of each interface exists, no machine of the inventory holds one of
/// the machine's MAC addresses, the generated ones included, and every
/// request to the store, the devices and the backend is carried out. Then
/// the run ends well; exactly N TAP devices were made, one for each interface
/// in order, under the name derived from the machine's name and the
/// interface's position, and each was attached to the bridge of the network
/// that the store handed out for its interface; and the store got one
/// machine, with N interfaces in the order of the request, each with the
/// network and the address of the request and with a MAC address that is
/// not empty: the one of the request where it names one, else a generated
/// one.
pub proof fn law_valid_creation_provisions_every_interface(
    node: int,
    asked: VmView,
    filled: VmView,
    rs: Seq<Response>,
)
    requires
        is_filled(asked, filled),
        refusal(asked) is None,
        asked.interfaces.len() <= usize::MAX,
        answers_well(VmView { node, ..filled }, rs),
    ensures
        ({
            let trace = run(opening(node, Goal::Create, filled), rs);
            let made = VmView { node, ..filled };
            let n = asked.interfaces.len() as int;
            &&& trace.end is Done
            &&& lookups(trace.requests) == networks(asked)
            &&& resolved(trace.answered).len() == n
            &&& devices(trace.requests) == plan(asked.name, resolved(trace.answered), n)
            &&& devices(trace.requests).len() == 2 * n
            &&& writes(trace.requests) == seq![RequestView::Create(EntityView::Vm(made))]
            &&& scripts(trace.requests) == seq![creating(made)]
            &&& made.interfaces.len() == n
            &&& forall|i: int|
                0 <= i < n ==> {
                    let f = #[trigger] made.interfaces[i];
                    let a = asked.interfaces[i];
                    &&& f.network == a.network
                    &&& f.ip == a.ip
                    &&& f.mac.len() > 0
                    &&& a.mac.len() > 0 ==> f.mac == a.mac
                    &&& a.mac.len() == 0 ==> is_generated_mac(f.mac)
                }
        }),
{
    lemma_ends_well(node, filled, rs);
    law_creation_provisions_every_interface(node, asked, filled, rs);
}

/// A plan for `n` interfaces has two operations for each.
pub proof fn lemma_plan_len(name: Seq<char>, bridges: Seq<Seq<char>>, n: int)
    requires
        n >= 0,
    ensures
        plan(name, bridges, n).len() == 2 * n,
    decreases n,
{
    if n > 0 {
        lemma_plan_len(name, bridges, n - 1);
    }
}

/// A request to create a machine one of whose MAC addresses a machine of
/// the inventory holds is refused with a conflict when the inventory is
/// looked through, and nothing is asked of the host any more.
pub proof fn law_mac_in_use_is_refused(
    t: TaskView,
    list: Vec<crate::host::Entity>,
    holder: int,
    k: int,
    i: int,
)
    requires
        t.stage == Stage::Macs,
        0 <= holder < list@.len(),
        0 <= i < t.vm.interfaces.len(),
        entities_of(list@)[holder] matches EntityView::Vm(other) && 0 <= k < other.interfaces.len()
            && other.interfaces[k].mac == t.vm.interfaces[i].mac,
    ensures
        next(t, Response::Entities(list)) == StepView::<TaskView>::Failed(
            ErrorKind::Conflict,
            "The specified 'mac' address is not available"@,
        ),
{
    let es = entities_of(list@);
    let mac = t.vm.interfaces[i].mac;
    match es[holder] {
        EntityView::Vm(other) => {
            lemma_mac_index(other.interfaces, mac, 0);
            assert(holds_mac(other, mac));
            assert(entity_holds(es[holder], mac));
            assert(taken(es, mac));
            assert(clashes(t.vm, es));
        },
        _ => {},
    }
}

/// A creation that ends with a conflict, after a run in which the host
/// reported no failure, has asked for no change of the store: the machine
/// that holds the name or the address is as it was.
pub proof fn law_conflict_changes_nothing(node: int, vm: VmView, rs: Seq<Response>)
    requires
        run(opening(node, Goal::Create, vm), rs).end matches StepView::Failed(kind, _) && kind
            == ErrorKind::Conflict,
        !has_failure(run(opening(node, Goal::Create, vm), rs).answered),
    ensures
        writes(run(opening(node, Goal::Create, vm), rs).requests).len() == 0,
{
    lemma_sound(node, Goal::Create, vm, rs);
}

/// A request to create or update a machine whose name is longer than
/// eleven characters is refused at once: nothing is asked of the host, so
/// no device is touched and no backend script is run.
pub proof fn law_long_name_refused(node: int, goal: Goal, asked: VmView, filled: VmView)
    requires
        is_filled(asked, filled),
        asked.name.len() > 11,
    ensures
        opening(node, goal, filled) == StepView::<TaskView>::Failed(
            ErrorKind::Validation,
            "The 'name' must be less than 11 characters long"@,
        ),
        forall|rs: Seq<Response>| (#[trigger] run(opening(node, goal, filled), rs)).requests.len() == 0,
{
    assert forall|rs: Seq<Response>|
        (#[trigger] run(opening(node, goal, filled), rs)).requests.len() == 0 by {
        lemma_ended_run(opening(node, goal, filled), rs);
    }
}

/// After an operation has ended, nothing more is asked.
pub proof fn lemma_ended_run(first: StepView<TaskView>, rs: Seq<Response>)
    requires
        !(first is Ask),
    ensures
        run(first, rs) == (Trace { requests: Seq::empty(), answered: Seq::empty(), end: first }),
    decreases rs.len(),
{
    if rs.len() > 0 {
        lemma_ended_run(first, rs.drop_last());
    }
}

/// When the backend fails to create a machine that is written to the
/// store, the record is removed again, and the creation then ends with the
/// backend's error whatever the store answers.
pub proof fn law_backend_failure_rolls_back(t: TaskView, e: crate::error::Error, any: Response)
    requires
        t.stage == Stage::Backend,
    ensures
        next(t, Response::Failed(e)) matches StepView::Ask(undo, q) && q == (RequestView::Delete {
            kind: Kind::Vm,
            name: t.vm.name,
            owner: Seq::empty(),
        }) && next(undo, any) == StepView::<TaskView>::Failed(e.kind, e.message@),
{
}

/// The request that removes the machine called `name` from the store.
pub open spec fn removing(name: Seq<char>) -> RequestView {
    RequestView::Delete { kind: Kind::Vm, name, owner: Seq::empty() }
}

/// What holds while the deletion of the machine called `name` waits for an
/// answer.
pub open spec fn tearing_down(name: Seq<char>, t: TaskView, reqs: Seq<RequestView>) -> bool {
    let n = t.vm.interfaces.len() as int;
    &&& t.goal == Goal::Delete
    &&& match t.stage {
        Stage::Fetch => devices(reqs).len() == 0 && writes(reqs).len() == 0 && t.vm.name == name,
        Stage::Remove | Stage::Teardown => devices(reqs).len() == 0 && writes(reqs) == seq![
            removing(name),
        ],
        Stage::Untap => 0 <= t.index < n && devices(reqs) == removals(t.vm.name, t.index + 1)
            && writes(reqs) == seq![removing(name)],
        _ => false,
    }
}

/// The machine that the store handed out first, if it handed one out.
pub open spec fn fetched_first(answered: Seq<Response>) -> Option<VmView> {
    if answered.len() > 0 {
        match answered[0] {
            Response::Entity(Some(crate::host::Entity::Vm(vm))) => Some(vm@),
            _ => None,
        }
    } else {
        None
    }
}

/// What holds of a run of the deletion of the machine called `name`: when
/// it has ended well, the store handed out the machine first and was asked
/// for one change, the removal of the machine of that name; and the TAP
/// device of each of the machine's interfaces, and nothing else, was
/// removed, in order.
pub open spec fn torn_down(name: Seq<char>, trace: Trace) -> bool {
    match trace.end {
        StepView::Ask(t, _) => {
            &&& tearing_down(name, t, trace.requests)
            &&& t.stage == Stage::Fetch ==> trace.answered.len() == 0
            &&& t.stage != Stage::Fetch ==> fetched_first(trace.answered) == Some(t.vm)
        },
        StepView::Done(_) => match fetched_first(trace.answered) {
            Some(vm) => devices(trace.requests) == removals(vm.name, vm.interfaces.len() as int)
                && writes(trace.requests) == seq![removing(name)],
            None => false,
        },
        StepView::Failed(_, _) => true,
    }
}

proof fn lemma_delete_step(
    name: Seq<char>,
    t: TaskView,
    reqs: Seq<RequestView>,
    answered: Seq<Response>,
    r: Response,
)
    requires
        tearing_down(name, t, reqs),
        t.stage == Stage::Fetch ==> answered.len() == 0,
        t.stage != Stage::Fetch ==> fetched_first(answered) == Some(t.vm),
    ensures
        torn_down(
            name,
            Trace {
                requests: reqs + pending(next(t, r)),
                answered: answered.push(r),
                end: next(t, r),
            },
        ),
{
    let s = next(t, r);
    let after = answered.push(r);
    if t.stage == Stage::Fetch {
        assert(writes(reqs) =~= Seq::<RequestView>::empty());
    }
    if answered.len() > 0 {
        assert(after[0] == answered[0]);
    } else {
        assert(after[0] == r);
    }
    if t.stage != Stage::Untap {
        assert(devices(reqs) =~= Seq::<DeviceOpView>::empty());
    }
    match s {
        StepView::Ask(t2, q) => {
            lemma_push_request(reqs, q);
            if t.stage == Stage::Fetch {
                assert(fetched_first(after) == Some(t2.vm));
            }
            if t2.stage == Stage::Untap {
                let name = t2.vm.name;
                let j = t2.index;
                assert(removals(name, 0) =~= Seq::<DeviceOpView>::empty());
                assert(removals(name, j + 1) == removals(name, j).push(
                    DeviceOpView::TapDelete { name: iface_dev_text(name, j) },
                ));
                assert(q == RequestView::Device(
                    DeviceOpView::TapDelete { name: iface_dev_text(name, j) },
                ));
                assert(devices(reqs) == removals(name, j));
            } else {
                assert(devices(reqs + pending(s)).len() == 0);
            }
            assert(t2.goal == Goal::Delete);
            assert(tearing_down(name, t2, reqs + pending(s)));
        },
        StepView::Done(_) => {
            assert(reqs + Seq::<RequestView>::empty() =~= reqs);
            assert(t.stage == Stage::Teardown || t.stage == Stage::Untap);
            assert(fetched_first(after) == Some(t.vm));
        },
        StepView::Failed(_, _) => {},
    }
}

/// Every run of the deletion of a machine tears down what it should.
pub proof fn lemma_delete_sound(name: Seq<char>, rs: Seq<Response>)
    ensures
        torn_down(name, run(fetching(Goal::Delete, name), rs)),
    decreases rs.len(),
{
    let first = fetching(Goal::Delete, name);
    if rs.len() == 0 {
        match first {
            StepView::Ask(t, q) => {
                lemma_push_request(Seq::empty(), q);
                assert(Seq::<RequestView>::empty().push(q) =~= seq![q]);
            },
            _ => {},
        }
    } else {
        lemma_delete_sound(name, rs.drop_last());
        let before = run(first, rs.drop_last());
        match before.end {
            StepView::Ask(t, _) => {
                lemma_delete_step(name, t, before.requests, before.answered, rs.last());
            },
            _ => {},
        }
    }
}

/// Every run of the deletion of a machine that ends well has torn down
/// the machine that the store handed out: the TAP device of each of its
/// interfaces was removed, in the order of the interfaces and under the
/// names derived from the machine's name and the interfaces' positions, and
/// the network provisioner was asked for nothing else. The store was asked
/// for one change: the removal of the machine of that name.
pub proof fn law_deletion_removes_every_tap(name: Seq<char>, rs: Seq<Response>)
    requires
        run(fetching(Goal::Delete, name), rs).end is Done,
    ensures
        fetched_first(run(fetching(Goal::Delete, name), rs).answered) matches Some(vm) && devices(
            run(fetching(Goal::Delete, name), rs).requests,
        ) == removals(vm.name, vm.interfaces.len() as int),
        writes(run(fetching(Goal::Delete, name), rs).requests) == seq![removing(name)],
{
    lemma_delete_sound(name, rs);
}

/// The machines of a node's inventory, by name.
pub type Inventory = Map<Seq<char>, VmView>;

/// The inventory after a request is carried out: a machine that is created
/// is held under its name, a machine that is updated takes the place of the
/// one of its name, and a machine that is deleted is held no more.
pub open spec fn written(store: Inventory, q: RequestView) -> Inventory {
    match q {
        RequestView::Create(EntityView::Vm(vm)) => store.insert(vm.name, vm),
        RequestView::Update(EntityView::Vm(vm)) => if store.dom().contains(vm.name) {
            store.insert(vm.name, vm)
        } else {
            store
        },
        RequestView::Delete { kind: Kind::Vm, name, owner } => store.remove(name),
        _ => store,
    }
}

/// The inventory after requests are carried out in order.
pub open spec fn written_all(store: Inventory, reqs: Seq<RequestView>) -> Inventory
    decreases reqs.len(),
{
    if reqs.len() == 0 {
        store
    } else {
        written(written_all(store, reqs.drop_last()), reqs.last())
    }
}

/// Whether a response tells of the machine called `name` what the
/// inventory holds: the machine, or that there is none.
pub open spec fn tells(store: Inventory, name: Seq<char>, r: Response) -> bool {
    match r {
        Response::Entity(None) => !store.dom().contains(name),
        Response::Entity(Some(crate::host::Entity::Vm(vm))) => store.dom().contains(name)
            && store[name] == vm@,
        _ => false,
    }
}

/// Only the requests that change the store change the inventory.
proof fn lemma_written_by_writes(store: Inventory, reqs: Seq<RequestView>)
    ensures
        written_all(store, reqs) == written_all(store, writes(reqs)),
    decreases reqs.len(),
{
    if reqs.len() > 0 {
        lemma_written_by_writes(store, reqs.drop_last());
        let w = writes(reqs.drop_last());
        if is_write(reqs.last()) {
            assert(w.push(reqs.last()).drop_last() =~= w);
        }
    }
}

/// The inventory after a run whose one change of the store is `q`.
proof fn lemma_written_once(store: Inventory, reqs: Seq<RequestView>, q: RequestView)
    requires
        writes(reqs) == seq![q],
    ensures
        written_all(store, reqs) == written(store, q),
{
    lemma_written_by_writes(store, reqs);
    let one = seq![q];
    assert(one.drop_last() =~= Seq::<RequestView>::empty());
    assert(written_all(store, one.drop_last()) == store);
}

/// A machine that was created and then deleted can be created again, under
/// the same device names.
///
/// Take any inventory, a creation of a machine that ended well, and after
/// it a deletion of the machine of that name that ended well. Then the
/// inventory holds no machine of that name. So when the same request comes
/// again, and the host says of the name what the inventory holds and carries
/// out the rest, the creation ends well again; it makes TAP devices under
/// exactly the names that the first creation made them under, in the same
/// order; and the inventory then holds one machine of that name, the one
/// that was created last.
pub proof fn law_delete_then_create_again(
    node: int,
    asked: VmView,
    first: VmView,
    second: VmView,
    store: Inventory,
    rs1: Seq<Response>,
    rs2: Seq<Response>,
    rs3: Seq<Response>,
)
    requires
        is_filled(asked, first),
        is_filled(asked, second),
        asked.interfaces.len() <= usize::MAX,
        run(opening(node, Goal::Create, first), rs1).end is Done,
        run(fetching(Goal::Delete, asked.name), rs2).end is Done,
        carries_out(VmView { node, ..second }, rs3),
        tells(
            written_all(
                written_all(store, run(opening(node, Goal::Create, first), rs1).requests),
                run(fetching(Goal::Delete, asked.name), rs2).requests,
            ),
            asked.name,
            name_answer(VmView { node, ..second }, rs3),
        ),
    ensures
        ({
            let created = run(opening(node, Goal::Create, first), rs1);
            let deleted = run(fetching(Goal::Delete, asked.name), rs2);
            let again = run(opening(node, Goal::Create, second), rs3);
            let before = written_all(written_all(store, created.requests), deleted.requests);
            let after = written_all(before, again.requests);
            let n = asked.interfaces.len() as int;
            &&& written_all(store, created.requests).dom().contains(asked.name)
            &&& !before.dom().contains(asked.name)
            &&& again.end is Done
            &&& devices(again.requests).len() == devices(created.requests).len()
            &&& forall|i: int|
                0 <= i < n ==> #[trigger] devices(again.requests)[2 * i] == devices(
                    created.requests,
                )[2 * i] && devices(again.requests)[2 * i] == (DeviceOpView::TapCreate {
                    name: iface_dev_text(asked.name, i),
                })
            &&& after.dom().contains(asked.name)
            &&& after[asked.name] == (VmView { node, ..second })
        }),
{
    let created = run(opening(node, Goal::Create, first), rs1);
    let deleted = run(fetching(Goal::Delete, asked.name), rs2);
    let again = run(opening(node, Goal::Create, second), rs3);
    let n = asked.interfaces.len() as int;
    let made1 = VmView { node, ..first };
    let made2 = VmView { node, ..second };
    law_creation_provisions_every_interface(node, asked, first, rs1);
    lemma_delete_sound(asked.name, rs2);
    lemma_written_once(store, created.requests, RequestView::Create(EntityView::Vm(made1)));
    let held = written_all(store, created.requests);
    lemma_written_once(held, deleted.requests, removing(asked.name));
    let before = written_all(held, deleted.requests);
    assert(!before.dom().contains(asked.name));
    // The refusal looks at the name and the backend alone, and the first
    // creation was not refused.
    assert(refusal(second) is None) by {
        if refusal(first) is Some {
            lemma_ended_run(opening(node, Goal::Create, first), rs1);
        }
        assert(refusal(second) == refusal(first));
    }
    assert(gives_nothing(name_answer(made2, rs3)));
    lemma_ends_well(node, second, rs3);
    law_creation_provisions_every_interface(node, asked, second, rs3);
    lemma_written_once(before, again.requests, RequestView::Create(EntityView::Vm(made2)));
    assert forall|i: int| 0 <= i < n implies #[trigger] devices(again.requests)[2 * i] == devices(
        created.requests,
    )[2 * i] && devices(again.requests)[2 * i] == (DeviceOpView::TapCreate {
        name: iface_dev_text(asked.name, i),
    }) by {
        law_device_names_are_stable(asked.name, resolved(created.answered), n, i);
        law_device_names_are_stable(asked.name, resolved(again.answered), n, i);
    }
}

/// The device names of a machine are a function of its name and of the
/// positions of its interfaces alone: what a deletion removes for a machine
/// is what a creation under the same name makes, before the deletion and
/// after it.
pub proof fn law_device_names_are_stable(name: Seq<char>, bridges: Seq<Seq<char>>, n: int, i: int)
    requires
        0 <= i < n,
    ensures
        plan(name, bridges, n)[2 * i] == (DeviceOpView::TapCreate { name: iface_dev_text(name, i) }),
        removals(name, n)[i] == (DeviceOpView::TapDelete { name: iface_dev_text(name, i) }),
        plan(name, bridges, n).len() == 2 * n,
        removals(name, n).len() == n,
    decreases n,
{
    lemma_plan_len(name, bridges, n);
    lemma_removals_len(name, n);
    if i < n - 1 {
        law_device_names_are_stable(name, bridges, n - 1, i);
        lemma_plan_len(name, bridges, n - 1);
        lemma_removals_len(name, n - 1);
    } else {
        lemma_plan_len(name, bridges, n - 1);
        lemma_removals_len(name, n - 1);
    }
}

pub proof fn lemma_removals_len(name: Seq<char>, n: int)
    requires
        n >= 0,
    ensures
        removals(name, n).len() == n,
    decreases n,
{
    if n > 0 {
        lemma_removals_len(name, n - 1);
    }
}

} // verus!
