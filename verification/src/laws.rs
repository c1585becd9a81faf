//! What holds of the bridge's tables over several operations.
//!
//! The operations of [`crate::bridge`] and [`crate::function`] say in
//! their contracts how each changes the tables. The proofs here put the
//! contracts together.

use crate::bridge::{HostFn, Step, Tables};
use crate::function::{teardown_steps, FunctionView};
use crate::module::{release_all_steps, released_all};
use vstd::prelude::*;

verus! {

/// A run of registrations is admissible from `t`: each key is free when
/// its closure is registered.
pub open spec fn registers<F, A>(
    t: Tables<F, A>,
    keys: Seq<usize>,
    closures: Seq<HostFn<F, A>>,
) -> bool
    decreases keys.len(),
{
    &&& keys.len() == closures.len()
    &&& keys.len() > 0 ==> !t.funcs.contains_key(keys[0]) && registers(
        t.with_fn(keys[0], closures[0]),
        keys.drop_first(),
        closures.drop_first(),
    )
}

/// The tables after a run of registrations.
pub open spec fn after_registering<F, A>(
    t: Tables<F, A>,
    keys: Seq<usize>,
    closures: Seq<HostFn<F, A>>,
) -> Tables<F, A>
    decreases keys.len(),
{
    if keys.len() == 0 || keys.len() != closures.len() {
        t
    } else {
        after_registering(
            t.with_fn(keys[0], closures[0]),
            keys.drop_first(),
            closures.drop_first(),
        )
    }
}

/// Registration uniqueness: however many closures are registered one
/// after another, their keys differ from each other and from every key
/// that was registered before; afterwards each key leads to its closure,
/// and what was registered before is still there.
pub proof fn law_registration_uniqueness<F, A>(
    t: Tables<F, A>,
    keys: Seq<usize>,
    closures: Seq<HostFn<F, A>>,
)
    requires
        registers(t, keys, closures),
    ensures
        forall|i: int, j: int| 0 <= i < j < keys.len() ==> keys[i] != keys[j],
        forall|i: int| 0 <= i < keys.len() ==> !t.funcs.contains_key(#[trigger] keys[i]),
        forall|i: int|
            0 <= i < keys.len() ==> after_registering(t, keys, closures).funcs.contains_key(
                #[trigger] keys[i],
            ) && after_registering(t, keys, closures).funcs[keys[i]] == closures[i],
        forall|key: usize|
            t.funcs.contains_key(key) ==> #[trigger] after_registering(
                t,
                keys,
                closures,
            ).funcs.contains_key(key) && after_registering(t, keys, closures).funcs[key]
                == t.funcs[key],
        after_registering(t, keys, closures).footprints == t.footprints,
        after_registering(t, keys, closures).cells == t.cells,
    decreases keys.len(),
{
    if keys.len() > 0 {
        let next = t.with_fn(keys[0], closures[0]);
        let rest_keys = keys.drop_first();
        let rest = closures.drop_first();
        law_registration_uniqueness(next, rest_keys, rest);
        let end = after_registering(t, keys, closures);
        assert(end == after_registering(next, rest_keys, rest));
        assert(next.funcs.contains_key(keys[0]));
        assert forall|i: int| 0 <= i < keys.len() implies !t.funcs.contains_key(
            #[trigger] keys[i],
        ) && end.funcs.contains_key(keys[i]) && end.funcs[keys[i]] == closures[i] by {
            if i > 0 {
                assert(keys[i] == rest_keys[i - 1]);
                assert(closures[i] == rest[i - 1]);
                assert(!next.funcs.contains_key(rest_keys[i - 1]));
            }
        }
        assert forall|i: int, j: int| 0 <= i < j < keys.len() implies keys[i] != keys[j] by {
            assert(keys[j] == rest_keys[j - 1]);
            if i > 0 {
                assert(keys[i] == rest_keys[i - 1]);
            } else {
                assert(!next.funcs.contains_key(rest_keys[j - 1]));
            }
        }
        assert forall|key: usize| t.funcs.contains_key(key) implies #[trigger] end.funcs.contains_key(
            key,
        ) && end.funcs[key] == t.funcs[key] by {
            assert(next.funcs.contains_key(key));
        }
    }
}

/// A closure stays registered until its key is removed: recording a
/// footprint, taking, sharing and releasing cells, and removing another
/// key all leave it where it is.
pub proof fn law_registered_until_removed<F, A>(
    t: Tables<F, A>,
    key: usize,
    other: usize,
    footprint: usize,
    cell: int,
)
    requires
        t.funcs.contains_key(key),
        other != key,
    ensures
        t.with_footprint(footprint, other).funcs == t.funcs,
        t.with_cell(cell, footprint).funcs == t.funcs,
        t.retained(cell).funcs == t.funcs,
        t.released(cell).funcs == t.funcs,
        t.disowned(cell).funcs == t.funcs,
        t.without_key(other).funcs.contains_key(key),
        t.without_key(other).funcs[key] == t.funcs[key],
        !t.without_key(key).funcs.contains_key(key),
{
}

/// The tables after `n` handles on one context were released, each a
/// copy of `h`.
pub open spec fn released_times<F, A>(t: Tables<F, A>, h: FunctionView, n: nat) -> Tables<F, A>
    decreases n,
{
    if n == 0 {
        t
    } else {
        h.released(released_times(t, h, (n - 1) as nat))
    }
}

/// Releasing a handle that is not the last on its context changes the
/// count of handles and nothing else, and leaves the engine nothing to
/// do.
pub proof fn law_release_shared<F, A>(t: Tables<F, A>, h: FunctionView)
    requires
        t.live(h.cell),
        h.strong(t) > 1,
    ensures
        h.released(t).funcs == t.funcs,
        h.released(t).footprints == t.footprints,
        h.released(t).live(h.cell),
        h.strong(h.released(t)) == h.strong(t) - 1,
        h.ctx(h.released(t)) == h.ctx(t),
        h.release_steps(t) == Seq::<Step>::empty(),
{
}

/// Releasing the last handle that owns its context removes the
/// context's footprint and the closure behind it, frees the cell, and
/// has the engine free the user data, where the function owns it, and
/// then delete the context.
pub proof fn law_release_last<F, A>(t: Tables<F, A>, h: FunctionView)
    requires
        t.wf(),
        t.live(h.cell),
        h.strong(t) == 1,
        !h.registered,
        t.footprints.contains_key(h.ctx(t)),
    ensures
        h.released(t).wf(),
        h.released(t).funcs == t.funcs.remove(t.footprints[h.ctx(t)]),
        h.released(t).footprints == t.footprints.remove(h.ctx(t)),
        !h.released(t).funcs.contains_key(t.footprints[h.ctx(t)]),
        !h.released(t).live(h.cell),
        h.release_steps(t) == teardown_steps(h.ctx(t), h.data_owner),
{
    crate::bridge::lemma_torn_down_wf(t.released(h.cell), h.ctx(t));
}

/// Teardown happens once, at the last release: of `n` handles that own a
/// context together, the first `n - 1` releases leave the registry and
/// the footprint table as they are, and the `n`-th removes the closure
/// and the footprint.
pub proof fn law_teardown_at_last_release<F, A>(t: Tables<F, A>, h: FunctionView, n: nat)
    requires
        t.wf(),
        t.live(h.cell),
        !h.registered,
        t.footprints.contains_key(h.ctx(t)),
        n <= h.strong(t),
    ensures
        n < h.strong(t) ==> {
            &&& released_times(t, h, n).funcs == t.funcs
            &&& released_times(t, h, n).footprints == t.footprints
            &&& released_times(t, h, n).live(h.cell)
            &&& h.strong(released_times(t, h, n)) == h.strong(t) - n
            &&& h.ctx(released_times(t, h, n)) == h.ctx(t)
        },
        n == h.strong(t) ==> {
            &&& released_times(t, h, n).funcs == t.funcs.remove(t.footprints[h.ctx(t)])
            &&& released_times(t, h, n).footprints == t.footprints.remove(h.ctx(t))
            &&& !released_times(t, h, n).live(h.cell)
        },
        n > 0 ==> h.release_steps(released_times(t, h, (n - 1) as nat)) == (if n == h.strong(t) {
            teardown_steps(h.ctx(t), h.data_owner)
        } else {
            Seq::<Step>::empty()
        }),
    decreases n,
{
    if n > 0 {
        let before = released_times(t, h, (n - 1) as nat);
        law_teardown_at_last_release(t, h, (n - 1) as nat);
        if n < h.strong(t) {
            law_release_shared(before, h);
        } else {
            law_release_last(before, h);
        }
    }
}

/// A handle that was found inside a module owns nothing: its release,
/// even the last one, removes no closure and no footprint, and leaves
/// the engine nothing to do.
pub proof fn law_registered_release<F, A>(t: Tables<F, A>, h: FunctionView)
    requires
        h.registered,
    ensures
        h.released(t).funcs == t.funcs,
        h.released(t).footprints == t.footprints,
        h.release_steps(t) == Seq::<Step>::empty(),
        t.live(h.cell) ==> h.strong(h.released(t)) == h.strong(t) - 1,
{
}

/// A handle found inside a module and the handle that owns the same
/// context count their copies apart: however often the found handle is
/// released, the owner's closure and footprint stay until the owner's
/// own last release.
pub proof fn law_found_leaves_owner<F, A>(
    t: Tables<F, A>,
    owner: FunctionView,
    found: FunctionView,
    n: nat,
)
    requires
        t.live(owner.cell),
        found.registered,
        found.cell != owner.cell,
    ensures
        released_times(t, found, n).funcs == t.funcs,
        released_times(t, found, n).footprints == t.footprints,
        released_times(t, found, n).live(owner.cell),
        released_times(t, found, n).cells[owner.cell] == t.cells[owner.cell],
    decreases n,
{
    if n > 0 {
        law_found_leaves_owner(t, owner, found, (n - 1) as nat);
        law_registered_release(released_times(t, found, (n - 1) as nat), found);
    }
}

/// After a function was torn down, a dispatch under its key finds
/// nothing: the key leads to no closure of either kind.
pub proof fn law_torn_down_key_is_gone<F, A>(t: Tables<F, A>, footprint: usize)
    requires
        t.wf(),
        t.footprints.contains_key(footprint),
    ensures
        t.torn_down(footprint).sync_fn(t.footprints[footprint]) is None,
        t.torn_down(footprint).async_fn(t.footprints[footprint]) is None,
        !t.torn_down(footprint).footprints.contains_key(footprint),
{
}

/// What has no footprint is not torn down: however many handles are
/// released, a context that the footprint table does not know gets no
/// footprint, and the engine is not told to free its user data nor to
/// delete it.
pub proof fn lemma_unknown_context_is_left_alone<F, A>(
    t: Tables<F, A>,
    funcs: Seq<FunctionView>,
    ctx: usize,
)
    requires
        !t.footprints.contains_key(ctx),
    ensures
        !released_all(t, funcs).footprints.contains_key(ctx),
        forall|k: int|
            0 <= k < release_all_steps(t, funcs).len() ==> (#[trigger] release_all_steps(
                t,
                funcs,
            )[k]) != Step::DeleteFunction(ctx) && release_all_steps(t, funcs)[k]
                != Step::FreeUserData(ctx),
    decreases funcs.len(),
{
    if funcs.len() > 0 {
        let first = funcs[0].release_steps(t);
        let next = funcs[0].released(t);
        lemma_unknown_context_is_left_alone(next, funcs.drop_first(), ctx);
        let rest = release_all_steps(next, funcs.drop_first());
        assert forall|k: int| 0 <= k < (first + rest).len() implies (#[trigger] (first + rest)[k])
            != Step::DeleteFunction(ctx) && (first + rest)[k] != Step::FreeUserData(ctx) by {
            if k >= first.len() {
                assert((first + rest)[k] == rest[k - first.len()]);
            }
        }
    }
}

/// Teardown happens once for each context: in what the engine is told
/// after any list of handles was released, in any state of the tables,
/// no context is deleted twice, and no context's user data is freed
/// twice.
pub proof fn law_context_is_torn_down_once<F, A>(
    t: Tables<F, A>,
    funcs: Seq<FunctionView>,
    ctx: usize,
)
    ensures
        forall|i: int, j: int|
            #![trigger release_all_steps(t, funcs)[i], release_all_steps(t, funcs)[j]]
            0 <= i < j < release_all_steps(t, funcs).len() ==> !(release_all_steps(t, funcs)[i]
                == Step::DeleteFunction(ctx) && release_all_steps(t, funcs)[j]
                == Step::DeleteFunction(ctx)) && !(release_all_steps(t, funcs)[i]
                == Step::FreeUserData(ctx) && release_all_steps(t, funcs)[j] == Step::FreeUserData(
                ctx,
            )),
    decreases funcs.len(),
{
    if funcs.len() > 0 {
        let first = funcs[0].release_steps(t);
        let next = funcs[0].released(t);
        let rest = release_all_steps(next, funcs.drop_first());
        let all = release_all_steps(t, funcs);
        assert(all == first + rest);
        law_context_is_torn_down_once(next, funcs.drop_first(), ctx);
        assert forall|i: int, j: int| 0 <= i < j < all.len() implies !(#[trigger] all[i]
            == Step::DeleteFunction(ctx) && #[trigger] all[j] == Step::DeleteFunction(ctx))
            && !(all[i] == Step::FreeUserData(ctx) && all[j] == Step::FreeUserData(ctx)) by {
            if i >= first.len() {
                assert(all[i] == rest[i - first.len()]);
                assert(all[j] == rest[j - first.len()]);
            } else if j >= first.len() {
                assert(all[j] == rest[j - first.len()]);
                if all[i] == Step::DeleteFunction(ctx) || all[i] == Step::FreeUserData(ctx) {
                    // this release tore the context down, and took its footprint
                    assert(funcs[0].tears_down(t) && t.footprints.contains_key(funcs[0].ctx(t)));
                    assert(funcs[0].ctx(t) == ctx);
                    assert(!next.footprints.contains_key(ctx));
                    lemma_unknown_context_is_left_alone(next, funcs.drop_first(), ctx);
                }
            }
        }
    }
}

/// Every footprint leads to a closure that can be dispatched to: its key
/// is registered, as a synchronous closure or as an asynchronous one, and
/// not as both.
pub proof fn law_footprint_leads_to_closure<F, A>(t: Tables<F, A>, footprint: usize)
    requires
        t.wf(),
        t.footprints.contains_key(footprint),
    ensures
        t.sync_fn(t.footprints[footprint]) is Some || t.async_fn(t.footprints[footprint]) is Some,
        !(t.sync_fn(t.footprints[footprint]) is Some && t.async_fn(t.footprints[footprint])
            is Some),
        t.bound(t.footprints[footprint]),
        !t.pending(t.footprints[footprint]),
{
}

/// The life of a host function leaves no trace: after its closure was
/// registered under a free key, its handle was made for the engine's
/// context, any number of further handles were made, and all of them
/// were released, the registry and the footprint table are as they were
/// before the registration.
pub proof fn law_life_leaves_no_trace<F, A>(
    t: Tables<F, A>,
    key: usize,
    closure: HostFn<F, A>,
    ctx: usize,
    h: FunctionView,
    copies: nat,
)
    requires
        t.wf(),
        !t.funcs.contains_key(key),
        ctx != 0,
        !t.footprints.contains_key(ctx),
        !h.registered,
        t.is_free_cell(h.cell),
        copies < usize::MAX,
    ensures
        t.with_fn(key, closure).binds(key, ctx),
        released_times(
            retained_times(
                t.with_fn(key, closure).with_footprint(ctx, key).with_cell(h.cell, ctx),
                h,
                copies,
            ),
            h,
            copies + 1,
        ).funcs == t.funcs,
        released_times(
            retained_times(
                t.with_fn(key, closure).with_footprint(ctx, key).with_cell(h.cell, ctx),
                h,
                copies,
            ),
            h,
            copies + 1,
        ).footprints == t.footprints,
{
    let registered = t.with_fn(key, closure);
    assert(!registered.bound(key)) by {
        if registered.bound(key) {
            let fp = choose|fp: usize| #[trigger]
                registered.footprints.contains_key(fp) && registered.footprints[fp] == key;
            assert(t.funcs.contains_key(t.footprints[fp]));
        }
    }
    crate::bridge::lemma_with_footprint_wf(registered, ctx, key);
    let made = registered.with_footprint(ctx, key).with_cell(h.cell, ctx);
    lemma_retained_times(made, h, copies);
    let shared = retained_times(made, h, copies);
    law_teardown_at_last_release(shared, h, copies + 1);
    assert(shared.funcs.remove(key) =~= t.funcs);
    assert(shared.footprints.remove(ctx) =~= t.footprints);
}

/// The tables after `n` more handles were made on the context of `h`.
pub open spec fn retained_times<F, A>(t: Tables<F, A>, h: FunctionView, n: nat) -> Tables<F, A>
    decreases n,
{
    if n == 0 {
        t
    } else {
        retained_times(t, h, (n - 1) as nat).retained(h.cell)
    }
}

/// Making handles changes the count of handles and nothing else.
pub proof fn lemma_retained_times<F, A>(t: Tables<F, A>, h: FunctionView, n: nat)
    requires
        t.live(h.cell),
        h.strong(t) + n <= usize::MAX,
    ensures
        retained_times(t, h, n).funcs == t.funcs,
        retained_times(t, h, n).footprints == t.footprints,
        retained_times(t, h, n).live(h.cell),
        h.strong(retained_times(t, h, n)) == h.strong(t) + n,
        h.ctx(retained_times(t, h, n)) == h.ctx(t),
        t.wf() ==> retained_times(t, h, n).wf(),
    decreases n,
{
    if n > 0 {
        lemma_retained_times(t, h, (n - 1) as nat);
    }
}

/// A function that was just made can be released: its context has a
/// footprint, so that the release of its handles is never beyond repair,
/// however many more handles were made.
pub proof fn law_created_releases_cleanly<F, A>(
    t: Tables<F, A>,
    key: usize,
    ctx: usize,
    h: FunctionView,
    copies: nat,
)
    requires
        t.wf(),
        t.binds(key, ctx),
        t.is_free_cell(h.cell),
        !h.registered,
        copies < usize::MAX,
    ensures
        !h.faults(retained_times(t.with_footprint(ctx, key).with_cell(h.cell, ctx), h, copies)),
        forall|n: nat|
            n <= copies ==> !h.faults(
                #[trigger] released_times(
                    retained_times(t.with_footprint(ctx, key).with_cell(h.cell, ctx), h, copies),
                    h,
                    n,
                ),
            ),
{
    crate::bridge::lemma_with_footprint_wf(t, ctx, key);
    let made = t.with_footprint(ctx, key).with_cell(h.cell, ctx);
    lemma_retained_times(made, h, copies);
    let shared = retained_times(made, h, copies);
    assert forall|n: nat| n <= copies implies !h.faults(#[trigger] released_times(shared, h, n)) by {
        law_teardown_at_last_release(shared, h, n);
    }
}

/// A dispatch reaches the closure of its own key: registering, binding
/// or removing under another key changes nothing of what a key leads to.
pub proof fn law_dispatch_reaches_its_own_closure<F, A>(
    t: Tables<F, A>,
    key: usize,
    other: usize,
    closure: HostFn<F, A>,
    footprint: usize,
)
    requires
        key != other,
    ensures
        t.with_fn(other, closure).sync_fn(key) == t.sync_fn(key),
        t.with_fn(other, closure).async_fn(key) == t.async_fn(key),
        t.with_footprint(footprint, other).sync_fn(key) == t.sync_fn(key),
        t.with_footprint(footprint, other).async_fn(key) == t.async_fn(key),
        t.without_key(other).sync_fn(key) == t.sync_fn(key),
        t.without_key(other).async_fn(key) == t.async_fn(key),
{
}

/// A run of registrations adds as many closures as it is long.
pub proof fn law_registrations_are_counted<F, A>(
    t: Tables<F, A>,
    keys: Seq<usize>,
    closures: Seq<HostFn<F, A>>,
)
    requires
        t.funcs.dom().finite(),
        registers(t, keys, closures),
    ensures
        after_registering(t, keys, closures).funcs.dom().finite(),
        after_registering(t, keys, closures).funcs.dom().len() == t.funcs.dom().len()
            + keys.len(),
    decreases keys.len(),
{
    if keys.len() > 0 {
        let next = t.with_fn(keys[0], closures[0]);
        assert(next.funcs.dom() =~= t.funcs.dom().insert(keys[0]));
        law_registrations_are_counted(next, keys.drop_first(), closures.drop_first());
    }
}

} // verus!
