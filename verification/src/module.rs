//! Module instances and import modules.
//!
//! An [`Instance`] is a handle on a module instance of the engine; what
//! it exports is found by name. An [`ImportModule`] is a module instance
//! that the host fills with its own functions, tables, memories and
//! globals. It owns the handles of the functions it was given, and lets
//! go of each of them once, when it is released itself.
//!
//! The engine answers the questions (is there an export of this name?)
//! and does the work (add this function under this name). The operations
//! here take the answers as arguments and return the work as [`Step`]s.

use crate::bridge::{Bridge, Cell, Step, Tables};
use crate::error::{
    Fault, FuncError, GlobalError, InstanceError, MemError, TableError, WasmEdgeError,
};
use crate::function::{Function, FunctionView};
use vstd::prelude::*;
use vstd::string::*;

verus! {

/// A table that a module exports, or that is about to be added to one.
#[derive(Clone, Copy, Debug, PartialEq, Eq, Structural)]
pub struct Table {
    /// The address of the table context; null once the table was given
    /// to a module.
    pub inner: usize,
    /// The table was found inside a module.
    pub registered: bool,
}

/// A memory that a module exports, or that is about to be added to one.
#[derive(Clone, Copy, Debug, PartialEq, Eq, Structural)]
pub struct Memory {
    /// The address of the memory context; null once the memory was given
    /// to a module.
    pub inner: usize,
    /// The memory was found inside a module.
    pub registered: bool,
}

/// A global that a module exports, or that is about to be added to one.
#[derive(Clone, Copy, Debug, PartialEq, Eq, Structural)]
pub struct Global {
    /// The address of the global context; null once the global was given
    /// to a module.
    pub inner: usize,
    /// The global was found inside a module.
    pub registered: bool,
}

/// The views of a list of function handles.
pub open spec fn views(funcs: Seq<Function>) -> Seq<FunctionView> {
    Seq::new(funcs.len(), |i: int| funcs[i]@)
}

/// The tables after the handles of a list were released, in order.
pub open spec fn released_all<F, A>(t: Tables<F, A>, funcs: Seq<FunctionView>) -> Tables<F, A>
    decreases funcs.len(),
{
    if funcs.len() == 0 {
        t
    } else {
        released_all(funcs[0].released(t), funcs.drop_first())
    }
}

/// What the engine has to do after the handles of a list were released,
/// in order.
pub open spec fn release_all_steps<F, A>(t: Tables<F, A>, funcs: Seq<FunctionView>) -> Seq<Step>
    decreases funcs.len(),
{
    if funcs.len() == 0 {
        Seq::empty()
    } else {
        funcs[0].release_steps(t) + release_all_steps(funcs[0].released(t), funcs.drop_first())
    }
}

/// What is wrong with releasing the handles of a list, in order, if
/// anything is: the fault of the first release that is beyond repair.
pub open spec fn first_fault<F, A>(t: Tables<F, A>, funcs: Seq<FunctionView>) -> Option<Fault>
    decreases funcs.len(),
{
    if funcs.len() == 0 {
        None
    } else if funcs[0].faults(t) {
        funcs[0].release_fault(t)
    } else {
        first_fault(funcs[0].released(t), funcs.drop_first())
    }
}

/// The tables after one more handle was made for each handle of a list.
pub open spec fn retained_all<F, A>(t: Tables<F, A>, funcs: Seq<FunctionView>) -> Tables<F, A>
    decreases funcs.len(),
{
    if funcs.len() == 0 {
        t
    } else {
        retained_all(t.retained(funcs[0].cell), funcs.drop_first())
    }
}

/// Each cell that a handle of the list holds has room for as many more
/// handles as the list is long.
pub open spec fn can_retain_all<F, A>(t: Tables<F, A>, funcs: Seq<FunctionView>) -> bool {
    forall|i: int|
        0 <= i < funcs.len() ==> t.strong_at((#[trigger] funcs[i]).cell) + funcs.len()
            <= usize::MAX
}

/// The tables after a handle on a module instance was released: the cell
/// counts one handle less, and loses the address where the handle
/// disowns the instance.
pub open spec fn module_released<F, A>(t: Tables<F, A>, cell: int, disowns: bool) -> Tables<
    F,
    A,
> {
    if !t.live(cell) {
        t
    } else if disowns {
        t.disowned(cell).released(cell)
    } else {
        t.released(cell)
    }
}

/// What the engine has to do after a handle on a module instance was
/// released: delete the instance, where the handle was the last, owned
/// the instance and its address is not null.
pub open spec fn module_release_steps<F, A>(t: Tables<F, A>, cell: int, registered: bool) -> Seq<
    Step,
> {
    if t.live(cell) && !registered && t.cells[cell].strong == 1 && t.cells[cell].ctx != 0 {
        seq![Step::DeleteModule(t.cells[cell].ctx)]
    } else {
        Seq::empty()
    }
}

/// Releases a handle on a module instance. A handle that `disowns` takes
/// the address out of the shared cell.
fn release_module<F, A>(
    bridge: &mut Bridge<F, A>,
    cell: usize,
    registered: bool,
    disowns: bool,
) -> (steps: Vec<Step>)
    ensures
        final(bridge)@ == module_released(old(bridge)@, cell as int, disowns),
        steps@ == module_release_steps(old(bridge)@, cell as int, registered),
{
    let mut steps: Vec<Step> = Vec::new();
    let held = bridge.cell(cell);
    if held.strong == 0 {
        return steps;
    }
    if !registered && held.strong == 1 && held.ctx != 0 {
        steps.push(Step::DeleteModule(held.ctx));
    }
    if disowns {
        bridge.disown(cell);
    }
    bridge.release(cell);
    steps
}

/// Releases the handles of a list, in order.
fn release_all<F, A>(bridge: &mut Bridge<F, A>, funcs: &Vec<Function>) -> (steps: Vec<Step>)
    requires
        first_fault(old(bridge)@, views(funcs@)) is None,
    ensures
        final(bridge)@ == released_all(old(bridge)@, views(funcs@)),
        steps@ == release_all_steps(old(bridge)@, views(funcs@)),
{
    let mut steps: Vec<Step> = Vec::new();
    let ghost all = views(funcs@);
    let ghost start = bridge@;
    let mut idx: usize = 0;
    proof {
        assert(all.skip(0) =~= all);
        assert(steps@ + release_all_steps(start, all) =~= release_all_steps(start, all));
    }
    while idx < funcs.len()
        invariant
            idx <= funcs.len(),
            all == views(funcs@),
            released_all(start, all) == released_all(bridge@, all.skip(idx as int)),
            release_all_steps(start, all) == steps@ + release_all_steps(
                bridge@,
                all.skip(idx as int),
            ),
            first_fault(bridge@, all.skip(idx as int)) is None,
        decreases funcs.len() - idx,
    {
        let ghost before = bridge@;
        let ghost rest = all.skip(idx as int);
        proof {
            assert(rest[0] == funcs@[idx as int]@);
            assert(rest.drop_first() =~= all.skip(idx + 1));
        }
        let mut more = funcs[idx].release_in(bridge);
        proof {
            assert(release_all_steps(before, rest) == rest[0].release_steps(before)
                + release_all_steps(rest[0].released(before), rest.drop_first()));
            assert((steps@ + more@) + release_all_steps(bridge@, all.skip(idx + 1)) =~= steps@ + (
            more@ + release_all_steps(bridge@, all.skip(idx + 1))));
        }
        steps.append(&mut more);
        idx = idx + 1;
    }
    proof {
        assert(all.skip(funcs.len() as int) =~= Seq::<FunctionView>::empty());
        assert(steps@ + Seq::<Step>::empty() =~= steps@);
    }
    steps
}

/// Makes one more handle for each handle of a list.
fn retain_all<F, A>(bridge: &mut Bridge<F, A>, funcs: &Vec<Function>) -> (copies: Vec<Function>)
    requires
        can_retain_all(old(bridge)@, views(funcs@)),
    ensures
        views(copies@) == views(funcs@),
        final(bridge)@ == retained_all(old(bridge)@, views(funcs@)),
        final(bridge)@.funcs == old(bridge)@.funcs,
        final(bridge)@.footprints == old(bridge)@.footprints,
        final(bridge)@.cells.len() == old(bridge)@.cells.len(),
{
    let mut copies: Vec<Function> = Vec::new();
    let ghost all = views(funcs@);
    let ghost start = bridge@;
    let mut idx: usize = 0;
    proof {
        assert(all.skip(0) =~= all);
    }
    while idx < funcs.len()
        invariant
            idx <= funcs.len(),
            all == views(funcs@),
            copies@.len() == idx,
            forall|j: int| 0 <= j < idx ==> (#[trigger] copies@[j])@ == funcs@[j]@,
            retained_all(start, all) == retained_all(bridge@, all.skip(idx as int)),
            bridge@.funcs == start.funcs,
            bridge@.footprints == start.footprints,
            bridge@.cells.len() == start.cells.len(),
            forall|j: int|
                0 <= j < all.len() ==> bridge@.strong_at((#[trigger] all[j]).cell) + (funcs.len()
                    - idx) <= usize::MAX,
        decreases funcs.len() - idx,
    {
        let ghost rest = all.skip(idx as int);
        proof {
            assert(all[idx as int] == funcs@[idx as int]@);
            assert(rest[0] == funcs@[idx as int]@);
            assert(rest.drop_first() =~= all.skip(idx + 1));
        }
        let copy = funcs[idx].retain(bridge);
        copies.push(copy);
        idx = idx + 1;
    }
    proof {
        assert(all.skip(funcs.len() as int) =~= Seq::<FunctionView>::empty());
        assert(views(copies@) =~= views(funcs@));
    }
    copies
}

/// A list after one more key was put behind it holds the key and what
/// it held before.
proof fn lemma_push_contains(list: Seq<usize>, last: usize, key: usize)
    ensures
        list.push(last).contains(key) <==> list.contains(key) || last == key,
{
    if list.contains(key) {
        let i = choose|i: int| 0 <= i < list.len() && list[i] == key;
        assert(list.push(last)[i] == key);
    }
    if last == key {
        assert(list.push(last)[list.len() as int] == key);
    }
    if list.push(last).contains(key) {
        let i = choose|i: int| 0 <= i < list.push(last).len() && list.push(last)[i] == key;
        if i < list.len() {
            assert(list[i] == key);
        }
    }
}

/// Whether a list holds a key.
fn holds(list: &Vec<usize>, key: usize) -> (held: bool)
    ensures
        held == list@.contains(key),
{
    let mut idx: usize = 0;
    while idx < list.len()
        invariant
            idx <= list.len(),
            forall|j: int| 0 <= j < idx ==> list@[j] != key,
        decreases list.len() - idx,
    {
        if list[idx] == key {
            return true;
        }
        idx = idx + 1;
    }
    false
}

/// The test for the release of a module that owns function handles: what
/// is wrong with releasing the module's own handle and then each
/// function handle in order, if anything is. Nothing is released: the
/// releases are played through on a copy of the cells.
fn release_fault_of<F, A>(bridge: &Bridge<F, A>, cell: usize, funcs: &Vec<Function>) -> (fault:
    Option<Fault>)
    ensures
        fault == import_release_fault(bridge@, cell as int, views(funcs@)),
{
    let mut cells: Vec<Cell> = Vec::new();
    let mut at: usize = 0;
    while at < bridge.cells_len()
        invariant
            at <= bridge@.cells.len(),
            cells@ == bridge@.cells.take(at as int),
        decreases bridge@.cells.len() - at,
    {
        cells.push(bridge.cell(at));
        proof {
            assert(cells@ =~= bridge@.cells.take(at + 1));
        }
        at = at + 1;
    }
    proof {
        assert(bridge@.cells.take(bridge@.cells.len() as int) =~= bridge@.cells);
    }
    if cell < cells.len() && cells[cell].strong >= 1 {
        let held = cells[cell];
        cells.set(cell, Cell { ctx: held.ctx, strong: held.strong - 1 });
    }
    let ghost start = module_released(bridge@, cell as int, false);
    let ghost mut state = start;
    let ghost all = views(funcs@);
    let mut gone: Vec<usize> = Vec::new();
    let mut idx: usize = 0;
    proof {
        assert(state.cells =~= cells@);
        assert(all.skip(0) =~= all);
    }
    while idx < funcs.len()
        invariant
            idx <= funcs.len(),
            all == views(funcs@),
            state.cells == cells@,
            forall|fp: usize| #[trigger]
                state.footprints.contains_key(fp) <==> bridge@.footprints.contains_key(fp)
                    && !gone@.contains(fp),
            start == module_released(bridge@, cell as int, false),
            first_fault(start, all) == first_fault(state, all.skip(idx as int)),
        decreases funcs.len() - idx,
    {
        let ghost rest = all.skip(idx as int);
        let ghost before = state;
        let ghost gone_before = gone@;
        proof {
            assert(rest[0] == funcs@[idx as int]@);
            assert(rest.drop_first() =~= all.skip(idx + 1));
        }
        let at = funcs[idx].cell();
        let held = if at < cells.len() {
            cells[at]
        } else {
            Cell { ctx: 0, strong: 0 }
        };
        let tears = held.strong == 1 && !funcs[idx].registered();
        if tears {
            let known = bridge.key_of(held.ctx).is_some() && !holds(&gone, held.ctx);
            if !known {
                proof {
                    assert(rest[0].cell == at);
                    assert(rest[0].ctx(state) == held.ctx);
                    assert(!state.footprints.contains_key(held.ctx));
                    assert(rest[0].faults(state));
                    assert(rest.len() > 0);
                    assert(first_fault(state, rest) == Some(
                        Fault::MissingFootprint { footprint: held.ctx },
                    ));
                }
                return Some(Fault::MissingFootprint { footprint: held.ctx });
            }
        }
        if held.strong >= 1 {
            cells.set(at, Cell { ctx: held.ctx, strong: held.strong - 1 });
        }
        if tears {
            gone.push(held.ctx);
        }
        proof {
            state = rest[0].released(before);
            assert(state.cells =~= cells@);
            assert forall|fp: usize| #[trigger]
                state.footprints.contains_key(fp) <==> bridge@.footprints.contains_key(fp)
                    && !gone@.contains(fp) by {
                if tears {
                    lemma_push_contains(gone_before, held.ctx, fp);
                }
            }
        }
        idx = idx + 1;
    }
    proof {
        assert(all.skip(funcs.len() as int) =~= Seq::<FunctionView>::empty());
    }
    None
}

/// Whether a module's cell and the cells of its functions have room for
/// the handles of one more copy of the module.
fn has_room_for_copy<F, A>(bridge: &Bridge<F, A>, cell: usize, funcs: &Vec<Function>) -> (room:
    bool)
    ensures
        room == (bridge@.strong_at(cell as int) < usize::MAX && can_retain_all(
            bridge@.retained(cell as int),
            views(funcs@),
        )),
{
    let held = bridge.cell(cell);
    if held.strong == usize::MAX {
        return false;
    }
    let ghost after = bridge@.retained(cell as int);
    let ghost all = views(funcs@);
    let mut idx: usize = 0;
    while idx < funcs.len()
        invariant
            idx <= funcs.len(),
            all == views(funcs@),
            after == bridge@.retained(cell as int),
            held.strong == bridge@.strong_at(cell as int),
            held.strong < usize::MAX,
            forall|j: int|
                0 <= j < idx ==> after.strong_at((#[trigger] all[j]).cell) + funcs.len()
                    <= usize::MAX,
        decreases funcs.len() - idx,
    {
        let shared = funcs[idx].cell() == cell && held.strong > 0;
        let strong = funcs[idx].strong_count(bridge);
        let counted = if shared {
            strong + 1
        } else {
            strong
        };
        proof {
            assert(all[idx as int] == funcs@[idx as int]@);
            assert(after.strong_at(all[idx as int].cell) == counted);
        }
        if counted > usize::MAX - funcs.len() {
            return false;
        }
        idx = idx + 1;
    }
    true
}

/// The number of exports that the engine lists.
pub fn exported_len(listed: &Vec<String>) -> (len: u32)
    requires
        listed@.len() <= u32::MAX,
    ensures
        len == listed@.len(),
{
    listed.len() as u32
}

/// What a list of exported names is handed out as: nothing where the
/// list is empty.
pub fn exported_names(listed: Vec<String>) -> (names: Option<Vec<String>>)
    ensures
        listed@.len() == 0 ==> names is None,
        listed@.len() > 0 ==> names == Some(listed),
{
    if listed.len() > 0 {
        Some(listed)
    } else {
        None
    }
}

/// A handle on a module instance.
#[derive(Debug)]
pub struct Instance {
    cell: usize,
    registered: bool,
}

/// What an [`Instance`] is, mathematically.
pub struct InstanceView {
    /// The index of the cell that the handle holds.
    pub cell: int,
    /// The instance lives inside the engine: the handle does not own it.
    pub registered: bool,
}

impl View for Instance {
    type V = InstanceView;

    closed spec fn view(&self) -> InstanceView {
        InstanceView { cell: self.cell as int, registered: self.registered }
    }
}

impl Instance {
    /// Makes a handle on a module instance of the engine. `registered`
    /// says that the instance lives inside the engine, which deletes it.
    pub fn create<F, A>(bridge: &mut Bridge<F, A>, ctx: usize, registered: bool) -> (instance:
        Instance)
        ensures
            instance@.registered == registered,
            old(bridge)@.is_free_cell(instance@.cell),
            final(bridge)@ == old(bridge)@.with_cell(instance@.cell, ctx),
    {
        let cell = bridge.hold(ctx);
        Instance { cell, registered }
    }

    /// The name of the module instance, from the name that the engine
    /// gave: nothing where that name is empty, as it is for an active
    /// module.
    pub fn name(&self, given: String) -> (name: Option<String>)
        ensures
            given@.len() == 0 ==> name is None,
            given@.len() > 0 ==> name == Some(given),
    {
        if given.as_str().unicode_len() == 0 {
            None
        } else {
            Some(given)
        }
    }

    /// The exported function of a name, from the engine's answer `found`
    /// to the question for it. The handle owns nothing.
    ///
    /// Fails where the engine found nothing (`found` is null).
    pub fn get_func<F, A>(&self, bridge: &mut Bridge<F, A>, name: &str, found: usize) -> (res:
        Result<Function, WasmEdgeError>)
        ensures
            found != 0 ==> {
                &&& res matches Ok(func)
                &&& func@.registered
                &&& !func@.data_owner
                &&& old(bridge)@.is_free_cell(func@.cell)
                &&& final(bridge)@ == old(bridge)@.with_cell(func@.cell, found)
            },
            found == 0 ==> {
                &&& res matches Err(WasmEdgeError::Instance(InstanceError::NotFoundFunc(missing)))
                &&& missing@ == name@
                &&& final(bridge)@ == old(bridge)@
            },
    {
        find_func(bridge, name, found)
    }

    /// The exported table of a name, from the engine's answer `found`.
    ///
    /// Fails where the engine found nothing (`found` is null).
    pub fn get_table(&self, name: &str, found: usize) -> (res: Result<Table, WasmEdgeError>)
        ensures
            found != 0 ==> res == Ok::<Table, WasmEdgeError>(
                Table { inner: found, registered: true },
            ),
            found == 0 ==> {
                &&& res matches Err(WasmEdgeError::Instance(InstanceError::NotFoundTable(missing)))
                &&& missing@ == name@
            },
    {
        find_table(name, found)
    }

    /// The exported memory of a name, from the engine's answer `found`.
    ///
    /// Fails where the engine found nothing (`found` is null).
    pub fn get_memory(&self, name: &str, found: usize) -> (res: Result<Memory, WasmEdgeError>)
        ensures
            found != 0 ==> res == Ok::<Memory, WasmEdgeError>(
                Memory { inner: found, registered: true },
            ),
            found == 0 ==> {
                &&& res matches Err(WasmEdgeError::Instance(InstanceError::NotFoundMem(missing)))
                &&& missing@ == name@
            },
    {
        find_memory(name, found)
    }

    /// The exported global of a name, from the engine's answer `found`.
    ///
    /// Fails where the engine found nothing (`found` is null).
    pub fn get_global(&self, name: &str, found: usize) -> (res: Result<Global, WasmEdgeError>)
        ensures
            found != 0 ==> res == Ok::<Global, WasmEdgeError>(
                Global { inner: found, registered: true },
            ),
            found == 0 ==> {
                &&& res matches Err(WasmEdgeError::Instance(InstanceError::NotFoundGlobal(missing)))
                &&& missing@ == name@
            },
    {
        find_global(name, found)
    }

    /// The number of the exported functions, from the engine's list.
    pub fn func_len(&self, listed: &Vec<String>) -> (len: u32)
        requires
            listed@.len() <= u32::MAX,
        ensures
            len == listed@.len(),
    {
        exported_len(listed)
    }

    /// The names of the exported functions, from the engine's list.
    pub fn func_names(&self, listed: Vec<String>) -> (names: Option<Vec<String>>)
        ensures
            listed@.len() == 0 ==> names is None,
            listed@.len() > 0 ==> names == Some(listed),
    {
        exported_names(listed)
    }

    /// The number of the exported tables, from the engine's list.
    pub fn table_len(&self, listed: &Vec<String>) -> (len: u32)
        requires
            listed@.len() <= u32::MAX,
        ensures
            len == listed@.len(),
    {
        exported_len(listed)
    }

    /// The names of the exported tables, from the engine's list.
    pub fn table_names(&self, listed: Vec<String>) -> (names: Option<Vec<String>>)
        ensures
            listed@.len() == 0 ==> names is None,
            listed@.len() > 0 ==> names == Some(listed),
    {
        exported_names(listed)
    }

    /// The number of the exported memories, from the engine's list.
    pub fn mem_len(&self, listed: &Vec<String>) -> (len: u32)
        requires
            listed@.len() <= u32::MAX,
        ensures
            len == listed@.len(),
    {
        exported_len(listed)
    }

    /// The names of the exported memories, from the engine's list.
    pub fn mem_names(&self, listed: Vec<String>) -> (names: Option<Vec<String>>)
        ensures
            listed@.len() == 0 ==> names is None,
            listed@.len() > 0 ==> names == Some(listed),
    {
        exported_names(listed)
    }

    /// The number of the exported globals, from the engine's list.
    pub fn global_len(&self, listed: &Vec<String>) -> (len: u32)
        requires
            listed@.len() <= u32::MAX,
        ensures
            len == listed@.len(),
    {
        exported_len(listed)
    }

    /// The names of the exported globals, from the engine's list.
    pub fn global_names(&self, listed: Vec<String>) -> (names: Option<Vec<String>>)
        ensures
            listed@.len() == 0 ==> names is None,
            listed@.len() > 0 ==> names == Some(listed),
    {
        exported_names(listed)
    }

    /// The host data of the module instance, from the address that the
    /// engine holds for it: nothing where the address is null.
    pub fn host_data(&self, held: usize) -> (data: Option<usize>)
        ensures
            data == (if held == 0 {
                None
            } else {
                Some(held)
            }),
    {
        if held == 0 {
            None
        } else {
            Some(held)
        }
    }

    /// Whether the instance lives inside the engine.
    pub fn registered(&self) -> (registered: bool)
        ensures
            registered == self@.registered,
    {
        self.registered
    }

    /// The number of handles that share this handle's instance; 0 for a
    /// handle that the bridge does not know.
    pub fn strong_count<F, A>(&self, bridge: &Bridge<F, A>) -> (count: usize)
        ensures
            count == bridge@.strong_at(self@.cell),
    {
        bridge.cell(self.cell).strong
    }

    /// The address of the module instance context; null for a handle that
    /// the bridge does not know, and after a handle found inside the
    /// engine was released.
    pub fn as_ptr<F, A>(&self, bridge: &Bridge<F, A>) -> (ctx: usize)
        ensures
            ctx == bridge@.ctx_at(self@.cell),
    {
        bridge.cell(self.cell).ctx
    }

    /// Makes one more handle on the same instance.
    pub fn retain<F, A>(&self, bridge: &mut Bridge<F, A>) -> (copy: Instance)
        requires
            old(bridge)@.strong_at(self@.cell) < usize::MAX,
        ensures
            copy@ == self@,
            final(bridge)@ == old(bridge)@.retained(self@.cell),
    {
        bridge.retain(self.cell);
        Instance { cell: self.cell, registered: self.registered }
    }

    /// Releases the handle, and returns what the engine has to do then.
    ///
    /// A handle on an instance inside the engine takes the address out of
    /// the shared cell and leaves the engine nothing to do. The last
    /// handle that owns its instance has the engine delete the instance.
    pub fn release<F, A>(self, bridge: &mut Bridge<F, A>) -> (steps: Vec<Step>)
        ensures
            final(bridge)@ == module_released(old(bridge)@, self@.cell, self@.registered),
            steps@ == module_release_steps(old(bridge)@, self@.cell, self@.registered),
    {
        release_module(bridge, self.cell, self.registered, self.registered)
    }
}

/// The exported function behind the engine's answer `found`.
fn find_func<F, A>(bridge: &mut Bridge<F, A>, name: &str, found: usize) -> (res: Result<
    Function,
    WasmEdgeError,
>)
    ensures
        found != 0 ==> {
            &&& res matches Ok(func)
            &&& func@.registered
            &&& !func@.data_owner
            &&& old(bridge)@.is_free_cell(func@.cell)
            &&& final(bridge)@ == old(bridge)@.with_cell(func@.cell, found)
        },
        found == 0 ==> {
            &&& res matches Err(WasmEdgeError::Instance(InstanceError::NotFoundFunc(missing)))
            &&& missing@ == name@
            &&& final(bridge)@ == old(bridge)@
        },
{
    if found == 0 {
        Err(WasmEdgeError::Instance(InstanceError::NotFoundFunc(String::from_str(name))))
    } else {
        Ok(Function::found(bridge, found))
    }
}

/// The exported table behind the engine's answer `found`.
fn find_table(name: &str, found: usize) -> (res: Result<Table, WasmEdgeError>)
    ensures
        found != 0 ==> res == Ok::<Table, WasmEdgeError>(Table { inner: found, registered: true }),
        found == 0 ==> {
            &&& res matches Err(WasmEdgeError::Instance(InstanceError::NotFoundTable(missing)))
            &&& missing@ == name@
        },
{
    if found == 0 {
        Err(WasmEdgeError::Instance(InstanceError::NotFoundTable(String::from_str(name))))
    } else {
        Ok(Table { inner: found, registered: true })
    }
}

/// The exported memory behind the engine's answer `found`.
fn find_memory(name: &str, found: usize) -> (res: Result<Memory, WasmEdgeError>)
    ensures
        found != 0 ==> res == Ok::<Memory, WasmEdgeError>(Memory { inner: found, registered: true }),
        found == 0 ==> {
            &&& res matches Err(WasmEdgeError::Instance(InstanceError::NotFoundMem(missing)))
            &&& missing@ == name@
        },
{
    if found == 0 {
        Err(WasmEdgeError::Instance(InstanceError::NotFoundMem(String::from_str(name))))
    } else {
        Ok(Memory { inner: found, registered: true })
    }
}

/// The exported global behind the engine's answer `found`.
fn find_global(name: &str, found: usize) -> (res: Result<Global, WasmEdgeError>)
    ensures
        found != 0 ==> res == Ok::<Global, WasmEdgeError>(Global { inner: found, registered: true }),
        found == 0 ==> {
            &&& res matches Err(WasmEdgeError::Instance(InstanceError::NotFoundGlobal(missing)))
            &&& missing@ == name@
        },
{
    if found == 0 {
        Err(WasmEdgeError::Instance(InstanceError::NotFoundGlobal(String::from_str(name))))
    } else {
        Ok(Global { inner: found, registered: true })
    }
}

/// What is wrong with releasing a module that owns function handles, if
/// anything is: the fault of the first of its functions whose release is
/// beyond repair.
pub open spec fn import_release_fault<F, A>(
    t: Tables<F, A>,
    cell: int,
    funcs: Seq<FunctionView>,
) -> Option<Fault> {
    first_fault(module_released(t, cell, false), funcs)
}

/// The tables after a module that owns function handles was released:
/// the module's own handle first, then each function handle in order.
pub open spec fn import_released<F, A>(
    t: Tables<F, A>,
    cell: int,
    funcs: Seq<FunctionView>,
) -> Tables<F, A> {
    released_all(module_released(t, cell, false), funcs)
}

/// What the engine has to do after a module that owns function handles
/// was released: delete the module instance, where the handle was the
/// last and owned it, then what each function's release asks for.
pub open spec fn import_release_steps<F, A>(
    t: Tables<F, A>,
    cell: int,
    registered: bool,
    funcs: Seq<FunctionView>,
) -> Seq<Step> {
    module_release_steps(t, cell, registered) + release_all_steps(
        module_released(t, cell, false),
        funcs,
    )
}

/// A module instance that the host fills with its own exports.
#[derive(Debug)]
pub struct ImportModule {
    cell: usize,
    registered: bool,
    name: String,
    funcs: Vec<Function>,
    host_data: Option<usize>,
}

/// What an [`ImportModule`] is, mathematically.
pub struct ImportModuleView {
    /// The index of the cell that the handle holds.
    pub cell: int,
    /// The module lives inside the engine: the handle does not own it.
    pub registered: bool,
    /// The module's name.
    pub name: Seq<char>,
    /// The function handles that the module owns, in the order in which
    /// they were added.
    pub funcs: Seq<FunctionView>,
    /// The address of the host data attached to the module, if any.
    pub host_data: Option<usize>,
}

impl View for ImportModule {
    type V = ImportModuleView;

    closed spec fn view(&self) -> ImportModuleView {
        ImportModuleView {
            cell: self.cell as int,
            registered: self.registered,
            name: self.name@,
            funcs: views(self.funcs@),
            host_data: self.host_data,
        }
    }
}

impl ImportModule {
    /// Makes an import module of a name, after the engine was asked for a
    /// module instance of that name, with the host data attached if there
    /// is any, and answered `ctx`.
    ///
    /// Fails where the engine made no instance (`ctx` is null).
    pub fn create<F, A>(
        bridge: &mut Bridge<F, A>,
        name: &str,
        host_data: Option<usize>,
        ctx: usize,
    ) -> (res: Result<ImportModule, WasmEdgeError>)
        ensures
            ctx != 0 ==> {
                &&& res matches Ok(import)
                &&& old(bridge)@.is_free_cell(import@.cell)
                &&& import@ == (ImportModuleView {
                    cell: import@.cell,
                    registered: false,
                    name: name@,
                    funcs: Seq::empty(),
                    host_data,
                })
                &&& final(bridge)@ == old(bridge)@.with_cell(import@.cell, ctx)
            },
            ctx == 0 ==> {
                &&& res matches Err(WasmEdgeError::Instance(InstanceError::CreateImportModule))
                &&& final(bridge)@ == old(bridge)@
            },
    {
        if ctx == 0 {
            return Err(WasmEdgeError::Instance(InstanceError::CreateImportModule));
        }
        let cell = bridge.hold(ctx);
        let import = ImportModule {
            cell,
            registered: false,
            name: String::from_str(name),
            funcs: Vec::new(),
            host_data,
        };
        proof {
            assert(import@.funcs =~= Seq::<FunctionView>::empty());
        }
        Ok(import)
    }

    /// The module's name.
    pub fn name(&self) -> (name: &str)
        ensures
            name@ == self@.name,
    {
        self.name.as_str()
    }

    /// The pointer to hand the engine as user data of a function that is
    /// created for this module: the module's host data, or null.
    pub fn host_data_ptr(&self) -> (ptr: usize)
        ensures
            ptr == (match self@.host_data {
                Some(ptr) => ptr,
                None => 0usize,
            }),
    {
        match self.host_data {
            Some(ptr) => ptr,
            None => 0,
        }
    }

    /// The number of function handles that the module owns.
    pub fn funcs_len(&self) -> (len: usize)
        ensures
            len == self@.funcs.len(),
    {
        self.funcs.len()
    }

    /// Adds a synchronous host function to the module, after the closure
    /// was registered under `key` and the engine was asked for a function
    /// context bound to the key, with the module's host data as user
    /// data, and answered `ctx`. The module owns the function's handle.
    /// Returns the engine's next step: to add the context to the module
    /// instance under the function's name.
    ///
    /// Fails as [`Function::create_sync_func`] does, and then leaves the
    /// module as it was.
    pub fn add_func_new<F, A>(&mut self, bridge: &mut Bridge<F, A>, key: usize, ctx: usize) -> (res:
        Result<Step, WasmEdgeError>)
        ensures
            old(bridge)@.binds(key, ctx) && old(bridge)@.funcs[key] is Sync
                ==> {
                &&& res == Ok::<Step, WasmEdgeError>(
                    Step::AddFunction { module: old(bridge)@.ctx_at(old(self)@.cell), func: ctx },
                )
                &&& added_func(old(self)@, final(self)@, old(bridge)@)
                &&& final(bridge)@ == old(bridge)@.with_footprint(ctx, key).with_cell(
                    final(self)@.funcs.last().cell,
                    ctx,
                )
            },
            !(old(bridge)@.binds(key, ctx) && old(bridge)@.funcs[key] is Sync)
                ==> {
                &&& res matches Err(WasmEdgeError::Func(FuncError::Create))
                &&& final(self)@ == old(self)@
                &&& final(bridge)@ == crate::function::withdrawn(old(bridge)@, key)
            },
    {
        let module = bridge.cell(self.cell).ctx;
        match Function::create_sync_func(bridge, key, ctx, None) {
            Ok(func) => {
                let ghost before = views(self.funcs@);
                self.funcs.push(func);
                proof {
                    assert(views(self.funcs@) =~= before.push(func@));
                }
                Ok(Step::AddFunction { module, func: ctx })
            },
            Err(err) => Err(err),
        }
    }

    /// Adds an asynchronous host function to the module, as
    /// [`ImportModule::add_func_new`] does a synchronous one.
    pub fn add_async_func<F, A>(&mut self, bridge: &mut Bridge<F, A>, key: usize, ctx: usize) -> (res:
        Result<Step, WasmEdgeError>)
        ensures
            old(bridge)@.binds(key, ctx) && old(bridge)@.funcs[key] is Async
                ==> {
                &&& res == Ok::<Step, WasmEdgeError>(
                    Step::AddFunction { module: old(bridge)@.ctx_at(old(self)@.cell), func: ctx },
                )
                &&& added_func(old(self)@, final(self)@, old(bridge)@)
                &&& final(bridge)@ == old(bridge)@.with_footprint(ctx, key).with_cell(
                    final(self)@.funcs.last().cell,
                    ctx,
                )
            },
            !(old(bridge)@.binds(key, ctx) && old(bridge)@.funcs[key] is Async)
                ==> {
                &&& res matches Err(WasmEdgeError::Func(FuncError::Create))
                &&& final(self)@ == old(self)@
                &&& final(bridge)@ == crate::function::withdrawn(old(bridge)@, key)
            },
    {
        let module = bridge.cell(self.cell).ctx;
        match Function::create_async_func(bridge, key, ctx, None) {
            Ok(func) => {
                let ghost before = views(self.funcs@);
                self.funcs.push(func);
                proof {
                    assert(views(self.funcs@) =~= before.push(func@));
                }
                Ok(Step::AddFunction { module, func: ctx })
            },
            Err(err) => Err(err),
        }
    }

    /// Adds a table to the module, after the engine was asked for a table
    /// and answered `table`. The module instance owns the table from now
    /// on, and no handle on it is left behind. Returns the engine's next
    /// step: to add the table to the module instance under its name.
    ///
    /// Fails where the engine made no table (`table` is null).
    pub fn add_table_new<F, A>(&mut self, bridge: &Bridge<F, A>, table: usize) -> (res: Result<
        Step,
        WasmEdgeError,
    >)
        ensures
            final(self)@ == old(self)@,
            table != 0 ==> res == Ok::<Step, WasmEdgeError>(
                Step::AddTable { module: bridge@.ctx_at(old(self)@.cell), table },
            ),
            table == 0 ==> res matches Err(WasmEdgeError::Table(TableError::Create)),
    {
        if table == 0 {
            Err(WasmEdgeError::Table(TableError::Create))
        } else {
            Ok(Step::AddTable { module: bridge.cell(self.cell).ctx, table })
        }
    }

    /// Adds a table with an element set to the module, after the engine
    /// was asked for a table and answered `table`, and then to set the
    /// element and answered `set`: nothing, or the code under which it
    /// failed.
    ///
    /// Fails where the engine made no table (`table` is null), and with
    /// the engine's code where it did not set the element.
    pub fn add_table_with_data<F, A>(
        &mut self,
        bridge: &Bridge<F, A>,
        table: usize,
        set: Result<(), u32>,
    ) -> (res: Result<Step, WasmEdgeError>)
        ensures
            final(self)@ == old(self)@,
            table != 0 && set is Ok ==> res == Ok::<Step, WasmEdgeError>(
                Step::AddTable { module: bridge@.ctx_at(old(self)@.cell), table },
            ),
            table == 0 ==> res matches Err(WasmEdgeError::Table(TableError::Create)),
            table != 0 && set is Err ==> res == Err::<Step, WasmEdgeError>(
                WasmEdgeError::Core(set->Err_0),
            ),
    {
        if table == 0 {
            return Err(WasmEdgeError::Table(TableError::Create));
        }
        match set {
            Ok(_) => Ok(Step::AddTable { module: bridge.cell(self.cell).ctx, table }),
            Err(code) => Err(WasmEdgeError::Core(code)),
        }
    }

    /// Adds a memory to the module, after the engine was asked for a
    /// memory and answered `memory`, as [`ImportModule::add_table_new`]
    /// does a table.
    ///
    /// Fails where the engine made no memory (`memory` is null).
    pub fn add_memory_new<F, A>(&mut self, bridge: &Bridge<F, A>, memory: usize) -> (res: Result<
        Step,
        WasmEdgeError,
    >)
        ensures
            final(self)@ == old(self)@,
            memory != 0 ==> res == Ok::<Step, WasmEdgeError>(
                Step::AddMemory { module: bridge@.ctx_at(old(self)@.cell), memory },
            ),
            memory == 0 ==> res matches Err(WasmEdgeError::Mem(MemError::Create)),
    {
        if memory == 0 {
            Err(WasmEdgeError::Mem(MemError::Create))
        } else {
            Ok(Step::AddMemory { module: bridge.cell(self.cell).ctx, memory })
        }
    }

    /// Adds a global to the module, after the engine was asked for a
    /// global and answered `global`, as [`ImportModule::add_table_new`]
    /// does a table.
    ///
    /// Fails where the engine made no global (`global` is null).
    pub fn add_global_new<F, A>(&mut self, bridge: &Bridge<F, A>, global: usize) -> (res: Result<
        Step,
        WasmEdgeError,
    >)
        ensures
            final(self)@ == old(self)@,
            global != 0 ==> res == Ok::<Step, WasmEdgeError>(
                Step::AddGlobal { module: bridge@.ctx_at(old(self)@.cell), global },
            ),
            global == 0 ==> res matches Err(WasmEdgeError::Global(GlobalError::Create)),
    {
        if global == 0 {
            Err(WasmEdgeError::Global(GlobalError::Create))
        } else {
            Ok(Step::AddGlobal { module: bridge.cell(self.cell).ctx, global })
        }
    }

    /// Whether the module lives inside the engine.
    pub fn registered(&self) -> (registered: bool)
        ensures
            registered == self@.registered,
    {
        self.registered
    }

    /// The number of handles that share this module's instance; 0 for a
    /// module that the bridge does not know.
    pub fn strong_count<F, A>(&self, bridge: &Bridge<F, A>) -> (count: usize)
        ensures
            count == bridge@.strong_at(self@.cell),
    {
        bridge.cell(self.cell).strong
    }

    /// The address of the module instance context; null for a module that
    /// the bridge does not know.
    pub fn as_ptr<F, A>(&self, bridge: &Bridge<F, A>) -> (ctx: usize)
        ensures
            ctx == bridge@.ctx_at(self@.cell),
    {
        bridge.cell(self.cell).ctx
    }

    /// Whether the cells have room for a copy of the module: whether
    /// [`ImportModule::retain`] may be called.
    pub fn has_room<F, A>(&self, bridge: &Bridge<F, A>) -> (room: bool)
        ensures
            room == (bridge@.strong_at(self@.cell) < usize::MAX && can_retain_all(
                bridge@.retained(self@.cell),
                self@.funcs,
            )),
    {
        has_room_for_copy(bridge, self.cell, &self.funcs)
    }

    /// Makes a copy of the module: one more handle on the module
    /// instance and one more on each function. `host_data` is the address
    /// of the copy's own host data, if the module has any.
    pub fn retain<F, A>(&self, bridge: &mut Bridge<F, A>, host_data: Option<usize>) -> (copy:
        ImportModule)
        requires
            old(bridge)@.strong_at(self@.cell) < usize::MAX,
            can_retain_all(old(bridge)@.retained(self@.cell), self@.funcs),
        ensures
            copy@ == (ImportModuleView { host_data, ..self@ }),
            final(bridge)@ == retained_all(old(bridge)@.retained(self@.cell), self@.funcs),
    {
        bridge.retain(self.cell);
        let funcs = retain_all(bridge, &self.funcs);
        ImportModule {
            cell: self.cell,
            registered: self.registered,
            name: self.name.clone(),
            funcs,
            host_data,
        }
    }

    /// The test for a release: what is wrong with releasing the module
    /// now, if anything is. A fault is beyond repair, and
    /// [`ImportModule::release`] does not take such a module.
    pub fn release_fault<F, A>(&self, bridge: &Bridge<F, A>) -> (fault: Option<Fault>)
        ensures
            fault == import_release_fault(bridge@, self@.cell, self@.funcs),
    {
        release_fault_of(bridge, self.cell, &self.funcs)
    }

    /// Releases the module, and returns what the engine has to do then.
    ///
    /// The last handle that owns the module instance has the engine
    /// delete the instance. Then every function handle of the module is
    /// released, once and in the order in which the functions were added,
    /// each as [`Function::release`] says.
    ///
    /// A module with a function whose release is beyond repair is no
    /// input: see [`ImportModule::release_fault`].
    pub fn release<F, A>(self, bridge: &mut Bridge<F, A>) -> (steps: Vec<Step>)
        requires
            import_release_fault(old(bridge)@, self@.cell, self@.funcs) is None,
        ensures
            final(bridge)@ == import_released(old(bridge)@, self@.cell, self@.funcs),
            steps@ == import_release_steps(
                old(bridge)@,
                self@.cell,
                self@.registered,
                self@.funcs,
            ),
    {
        let mut steps = release_module(bridge, self.cell, self.registered, false);
        let mut more = release_all(bridge, &self.funcs);
        steps.append(&mut more);
        steps
    }
}

/// `after` is `before` with one function handle added behind the others:
/// a handle that owns its context and no user data, on the next free
/// cell of `t`.
pub open spec fn added_func<F, A>(
    before: ImportModuleView,
    after: ImportModuleView,
    t: Tables<F, A>,
) -> bool {
    &&& after.funcs.len() == before.funcs.len() + 1
    &&& after == (ImportModuleView { funcs: before.funcs.push(after.funcs.last()), ..before })
    &&& !after.funcs.last().registered
    &&& !after.funcs.last().data_owner
    &&& t.is_free_cell(after.funcs.last().cell)
}

/// What can be asked of a module instance for its exports.
pub trait AsInstance {
    /// The exported function of a name, from the engine's answer `found`
    /// to the question for it. The handle owns nothing.
    ///
    /// Fails where the engine found nothing (`found` is null).
    fn get_func<F, A>(&self, bridge: &mut Bridge<F, A>, name: &str, found: usize) -> (res: Result<
        Function,
        WasmEdgeError,
    >)
        ensures
            found != 0 ==> {
                &&& res matches Ok(func)
                &&& func@.registered
                &&& !func@.data_owner
                &&& old(bridge)@.is_free_cell(func@.cell)
                &&& final(bridge)@ == old(bridge)@.with_cell(func@.cell, found)
            },
            found == 0 ==> {
                &&& res matches Err(WasmEdgeError::Instance(InstanceError::NotFoundFunc(missing)))
                &&& missing@ == name@
                &&& final(bridge)@ == old(bridge)@
            },
    ;

    /// The number of the exported functions, from the engine's list.
    fn func_len(&self, listed: &Vec<String>) -> (len: u32)
        requires
            listed@.len() <= u32::MAX,
        ensures
            len == listed@.len(),
    ;

    /// The names of the exported functions, from the engine's list.
    fn func_names(&self, listed: Vec<String>) -> (names: Option<Vec<String>>)
        ensures
            listed@.len() == 0 ==> names is None,
            listed@.len() > 0 ==> names == Some(listed),
    ;

    /// The exported table of a name, from the engine's answer `found`.
    ///
    /// Fails where the engine found nothing (`found` is null).
    fn get_table(&self, name: &str, found: usize) -> (res: Result<Table, WasmEdgeError>)
        ensures
            found != 0 ==> res == Ok::<Table, WasmEdgeError>(
                Table { inner: found, registered: true },
            ),
            found == 0 ==> {
                &&& res matches Err(WasmEdgeError::Instance(InstanceError::NotFoundTable(missing)))
                &&& missing@ == name@
            },
    ;

    /// The number of the exported tables, from the engine's list.
    fn table_len(&self, listed: &Vec<String>) -> (len: u32)
        requires
            listed@.len() <= u32::MAX,
        ensures
            len == listed@.len(),
    ;

    /// The names of the exported tables, from the engine's list.
    fn table_names(&self, listed: Vec<String>) -> (names: Option<Vec<String>>)
        ensures
            listed@.len() == 0 ==> names is None,
            listed@.len() > 0 ==> names == Some(listed),
    ;

    /// The exported memory of a name, from the engine's answer `found`.
    ///
    /// Fails where the engine found nothing (`found` is null).
    fn get_memory(&self, name: &str, found: usize) -> (res: Result<Memory, WasmEdgeError>)
        ensures
            found != 0 ==> res == Ok::<Memory, WasmEdgeError>(
                Memory { inner: found, registered: true },
            ),
            found == 0 ==> {
                &&& res matches Err(WasmEdgeError::Instance(InstanceError::NotFoundMem(missing)))
                &&& missing@ == name@
            },
    ;

    /// The number of the exported memories, from the engine's list.
    fn mem_len(&self, listed: &Vec<String>) -> (len: u32)
        requires
            listed@.len() <= u32::MAX,
        ensures
            len == listed@.len(),
    ;

    /// The names of the exported memories, from the engine's list.
    fn mem_names(&self, listed: Vec<String>) -> (names: Option<Vec<String>>)
        ensures
            listed@.len() == 0 ==> names is None,
            listed@.len() > 0 ==> names == Some(listed),
    ;

    /// The exported global of a name, from the engine's answer `found`.
    ///
    /// Fails where the engine found nothing (`found` is null).
    fn get_global(&self, name: &str, found: usize) -> (res: Result<Global, WasmEdgeError>)
        ensures
            found != 0 ==> res == Ok::<Global, WasmEdgeError>(
                Global { inner: found, registered: true },
            ),
            found == 0 ==> {
                &&& res matches Err(WasmEdgeError::Instance(InstanceError::NotFoundGlobal(missing)))
                &&& missing@ == name@
            },
    ;

    /// The number of the exported globals, from the engine's list.
    fn global_len(&self, listed: &Vec<String>) -> (len: u32)
        requires
            listed@.len() <= u32::MAX,
        ensures
            len == listed@.len(),
    ;

    /// The names of the exported globals, from the engine's list.
    fn global_names(&self, listed: Vec<String>) -> (names: Option<Vec<String>>)
        ensures
            listed@.len() == 0 ==> names is None,
            listed@.len() > 0 ==> names == Some(listed),
    ;
}

/// What a module can be given to export. Each operation returns the
/// engine's next step: to add the context to the module instance, under
/// the name that the caller chose.
pub trait AsImport: Sized {
    /// The index of the cell that the module's handle holds.
    spec fn module_cell(&self) -> int;

    /// The function handles that the module owns, in order.
    spec fn held(&self) -> Seq<FunctionView>;

    /// The name of the module instance, in contracts.
    spec fn module_name(&self) -> Seq<char>;

    /// The module is as `before` but for the function handles it owns.
    spec fn same_but_funcs(&self, before: &Self) -> bool;

    /// The name of the module instance.
    fn name(&self) -> (name: &str)
        ensures
            name@ == self.module_name(),
    ;

    /// Gives the module a function. The module owns the handle from now
    /// on, and releases it when it is released itself.
    fn add_func<F, A>(&mut self, bridge: &Bridge<F, A>, func: Function) -> (step: Step)
        ensures
            step == (Step::AddFunction {
                module: bridge@.ctx_at(old(self).module_cell()),
                func: bridge@.ctx_at(func@.cell),
            }),
            final(self).held() == old(self).held().push(func@),
            final(self).same_but_funcs(old(self)),
    ;

    /// Gives the module a table. The module instance owns the table from
    /// now on: the handle that was given away loses the address, and has
    /// nothing left to delete.
    fn add_table<F, A>(&mut self, bridge: &Bridge<F, A>, table: &mut Table) -> (step: Step)
        ensures
            step == (Step::AddTable {
                module: bridge@.ctx_at(old(self).module_cell()),
                table: old(table).inner,
            }),
            *final(table) == (Table { inner: 0, registered: old(table).registered }),
            *final(self) == *old(self),
    ;

    /// Gives the module a memory, as [`AsImport::add_table`] does a
    /// table.
    fn add_memory<F, A>(&mut self, bridge: &Bridge<F, A>, memory: &mut Memory) -> (step: Step)
        ensures
            step == (Step::AddMemory {
                module: bridge@.ctx_at(old(self).module_cell()),
                memory: old(memory).inner,
            }),
            *final(memory) == (Memory { inner: 0, registered: old(memory).registered }),
            *final(self) == *old(self),
    ;

    /// Gives the module a global, as [`AsImport::add_table`] does a
    /// table.
    fn add_global<F, A>(&mut self, bridge: &Bridge<F, A>, global: &mut Global) -> (step: Step)
        ensures
            step == (Step::AddGlobal {
                module: bridge@.ctx_at(old(self).module_cell()),
                global: old(global).inner,
            }),
            *final(global) == (Global { inner: 0, registered: old(global).registered }),
            *final(self) == *old(self),
    ;
}

impl AsImport for ImportModule {
    open spec fn module_cell(&self) -> int {
        self@.cell
    }

    open spec fn held(&self) -> Seq<FunctionView> {
        self@.funcs
    }

    open spec fn module_name(&self) -> Seq<char> {
        self@.name
    }

    open spec fn same_but_funcs(&self, before: &Self) -> bool {
        self@ == (ImportModuleView { funcs: self@.funcs, ..before@ })
    }

    fn name(&self) -> (name: &str) {
        self.name.as_str()
    }

    fn add_func<F, A>(&mut self, bridge: &Bridge<F, A>, func: Function) -> (step: Step) {
        let module = bridge.cell(self.cell).ctx;
        let func_ctx = func.as_ptr(bridge);
        let ghost before = views(self.funcs@);
        self.funcs.push(func);
        proof {
            assert(views(self.funcs@) =~= before.push(func@));
        }
        Step::AddFunction { module, func: func_ctx }
    }

    fn add_table<F, A>(&mut self, bridge: &Bridge<F, A>, table: &mut Table) -> (step: Step) {
        let step = Step::AddTable { module: bridge.cell(self.cell).ctx, table: table.inner };
        table.inner = 0;
        step
    }

    fn add_memory<F, A>(&mut self, bridge: &Bridge<F, A>, memory: &mut Memory) -> (step: Step) {
        let step = Step::AddMemory { module: bridge.cell(self.cell).ctx, memory: memory.inner };
        memory.inner = 0;
        step
    }

    fn add_global<F, A>(&mut self, bridge: &Bridge<F, A>, global: &mut Global) -> (step: Step) {
        let step = Step::AddGlobal { module: bridge.cell(self.cell).ctx, global: global.inner };
        global.inner = 0;
        step
    }
}

/// The name of every module instance for the system interface.
pub open spec fn wasi_name() -> Seq<char> {
    "wasi_snapshot_preview1"@
}

/// The module instance of the system interface.
#[derive(Debug)]
pub struct WasiModule {
    cell: usize,
    registered: bool,
    funcs: Vec<Function>,
}

/// What a [`WasiModule`] is, mathematically.
pub struct WasiModuleView {
    /// The index of the cell that the handle holds.
    pub cell: int,
    /// The module lives inside the engine: the handle does not own it.
    pub registered: bool,
    /// The function handles that the module owns, in order.
    pub funcs: Seq<FunctionView>,
}

impl View for WasiModule {
    type V = WasiModuleView;

    closed spec fn view(&self) -> WasiModuleView {
        WasiModuleView {
            cell: self.cell as int,
            registered: self.registered,
            funcs: views(self.funcs@),
        }
    }
}

impl WasiModule {
    /// Makes the module of the system interface, after the engine was
    /// asked for one, with the arguments, the environment and the
    /// directories to open, and answered `ctx`.
    ///
    /// Fails where the engine made no instance (`ctx` is null).
    pub fn create<F, A>(bridge: &mut Bridge<F, A>, ctx: usize) -> (res: Result<
        WasiModule,
        WasmEdgeError,
    >)
        ensures
            ctx != 0 ==> {
                &&& res matches Ok(wasi)
                &&& old(bridge)@.is_free_cell(wasi@.cell)
                &&& wasi@ == (WasiModuleView {
                    cell: wasi@.cell,
                    registered: false,
                    funcs: Seq::empty(),
                })
                &&& final(bridge)@ == old(bridge)@.with_cell(wasi@.cell, ctx)
            },
            ctx == 0 ==> {
                &&& res matches Err(WasmEdgeError::ImportObjCreate)
                &&& final(bridge)@ == old(bridge)@
            },
    {
        if ctx == 0 {
            return Err(WasmEdgeError::ImportObjCreate);
        }
        let cell = bridge.hold(ctx);
        let wasi = WasiModule { cell, registered: false, funcs: Vec::new() };
        proof {
            assert(wasi@.funcs =~= Seq::<FunctionView>::empty());
        }
        Ok(wasi)
    }

    /// The native handler behind a descriptor, from the engine's answer: a
    /// status code and, where the code is 0, the handler.
    ///
    /// Fails where the code is not 0.
    pub fn get_native_handler(&self, code: u32, handler: u64) -> (res: Result<u64, WasmEdgeError>)
        ensures
            code == 0 ==> res == Ok::<u64, WasmEdgeError>(handler),
            code != 0 ==> res matches Err(
                WasmEdgeError::Instance(InstanceError::NotFoundMappedFdHandler),
            ),
    {
        if code == 0 {
            Ok(handler)
        } else {
            Err(WasmEdgeError::Instance(InstanceError::NotFoundMappedFdHandler))
        }
    }

    /// Whether the module lives inside the engine.
    pub fn registered(&self) -> (registered: bool)
        ensures
            registered == self@.registered,
    {
        self.registered
    }

    /// The number of handles that share this module's instance; 0 for a
    /// module that the bridge does not know.
    pub fn strong_count<F, A>(&self, bridge: &Bridge<F, A>) -> (count: usize)
        ensures
            count == bridge@.strong_at(self@.cell),
    {
        bridge.cell(self.cell).strong
    }

    /// The address of the module instance context; null for a module that
    /// the bridge does not know.
    pub fn as_ptr<F, A>(&self, bridge: &Bridge<F, A>) -> (ctx: usize)
        ensures
            ctx == bridge@.ctx_at(self@.cell),
    {
        bridge.cell(self.cell).ctx
    }

    /// Whether the cells have room for a copy of the module: whether
    /// [`WasiModule::retain`] may be called.
    pub fn has_room<F, A>(&self, bridge: &Bridge<F, A>) -> (room: bool)
        ensures
            room == (bridge@.strong_at(self@.cell) < usize::MAX && can_retain_all(
                bridge@.retained(self@.cell),
                self@.funcs,
            )),
    {
        has_room_for_copy(bridge, self.cell, &self.funcs)
    }

    /// Makes a copy of the module: one more handle on the module
    /// instance and one more on each function.
    pub fn retain<F, A>(&self, bridge: &mut Bridge<F, A>) -> (copy: WasiModule)
        requires
            old(bridge)@.strong_at(self@.cell) < usize::MAX,
            can_retain_all(old(bridge)@.retained(self@.cell), self@.funcs),
        ensures
            copy@ == self@,
            final(bridge)@ == retained_all(old(bridge)@.retained(self@.cell), self@.funcs),
    {
        bridge.retain(self.cell);
        let funcs = retain_all(bridge, &self.funcs);
        WasiModule { cell: self.cell, registered: self.registered, funcs }
    }

    /// The test for a release: what is wrong with releasing the module
    /// now, if anything is. A fault is beyond repair, and
    /// [`WasiModule::release`] does not take such a module.
    pub fn release_fault<F, A>(&self, bridge: &Bridge<F, A>) -> (fault: Option<Fault>)
        ensures
            fault == import_release_fault(bridge@, self@.cell, self@.funcs),
    {
        release_fault_of(bridge, self.cell, &self.funcs)
    }

    /// Releases the module, as [`ImportModule::release`] does an import
    /// module. A module with a function whose release is beyond repair is
    /// no input: see [`WasiModule::release_fault`].
    pub fn release<F, A>(self, bridge: &mut Bridge<F, A>) -> (steps: Vec<Step>)
        requires
            import_release_fault(old(bridge)@, self@.cell, self@.funcs) is None,
        ensures
            final(bridge)@ == import_released(old(bridge)@, self@.cell, self@.funcs),
            steps@ == import_release_steps(
                old(bridge)@,
                self@.cell,
                self@.registered,
                self@.funcs,
            ),
    {
        let mut steps = release_module(bridge, self.cell, self.registered, false);
        let mut more = release_all(bridge, &self.funcs);
        steps.append(&mut more);
        steps
    }
}

impl AsInstance for WasiModule {
    fn get_func<F, A>(&self, bridge: &mut Bridge<F, A>, name: &str, found: usize) -> (res: Result<
        Function,
        WasmEdgeError,
    >) {
        find_func(bridge, name, found)
    }

    fn func_len(&self, listed: &Vec<String>) -> (len: u32) {
        exported_len(listed)
    }

    fn func_names(&self, listed: Vec<String>) -> (names: Option<Vec<String>>) {
        exported_names(listed)
    }

    fn get_table(&self, name: &str, found: usize) -> (res: Result<Table, WasmEdgeError>) {
        find_table(name, found)
    }

    fn table_len(&self, listed: &Vec<String>) -> (len: u32) {
        exported_len(listed)
    }

    fn table_names(&self, listed: Vec<String>) -> (names: Option<Vec<String>>) {
        exported_names(listed)
    }

    fn get_memory(&self, name: &str, found: usize) -> (res: Result<Memory, WasmEdgeError>) {
        find_memory(name, found)
    }

    fn mem_len(&self, listed: &Vec<String>) -> (len: u32) {
        exported_len(listed)
    }

    fn mem_names(&self, listed: Vec<String>) -> (names: Option<Vec<String>>) {
        exported_names(listed)
    }

    fn get_global(&self, name: &str, found: usize) -> (res: Result<Global, WasmEdgeError>) {
        find_global(name, found)
    }

    fn global_len(&self, listed: &Vec<String>) -> (len: u32) {
        exported_len(listed)
    }

    fn global_names(&self, listed: Vec<String>) -> (names: Option<Vec<String>>) {
        exported_names(listed)
    }
}

impl AsImport for WasiModule {
    open spec fn module_cell(&self) -> int {
        self@.cell
    }

    open spec fn held(&self) -> Seq<FunctionView> {
        self@.funcs
    }

    open spec fn module_name(&self) -> Seq<char> {
        wasi_name()
    }

    open spec fn same_but_funcs(&self, before: &Self) -> bool {
        self@ == (WasiModuleView { funcs: self@.funcs, ..before@ })
    }

    fn name(&self) -> (name: &str) {
        "wasi_snapshot_preview1"
    }

    fn add_func<F, A>(&mut self, bridge: &Bridge<F, A>, func: Function) -> (step: Step) {
        let module = bridge.cell(self.cell).ctx;
        let func_ctx = func.as_ptr(bridge);
        let ghost before = views(self.funcs@);
        self.funcs.push(func);
        proof {
            assert(views(self.funcs@) =~= before.push(func@));
        }
        Step::AddFunction { module, func: func_ctx }
    }

    fn add_table<F, A>(&mut self, bridge: &Bridge<F, A>, table: &mut Table) -> (step: Step) {
        let step = Step::AddTable { module: bridge.cell(self.cell).ctx, table: table.inner };
        table.inner = 0;
        step
    }

    fn add_memory<F, A>(&mut self, bridge: &Bridge<F, A>, memory: &mut Memory) -> (step: Step) {
        let step = Step::AddMemory { module: bridge.cell(self.cell).ctx, memory: memory.inner };
        memory.inner = 0;
        step
    }

    fn add_global<F, A>(&mut self, bridge: &Bridge<F, A>, global: &mut Global) -> (step: Step) {
        let step = Step::AddGlobal { module: bridge.cell(self.cell).ctx, global: global.inner };
        global.inner = 0;
        step
    }
}

/// A module instance that can be imported into a store.
#[derive(Debug)]
pub enum ImportObject {
    /// A module that the host filled.
    Import(ImportModule),
    /// The module of the system interface.
    Wasi(WasiModule),
}

impl ImportObject {
    /// The name of the import object, in contracts.
    pub open spec fn spec_name(&self) -> Seq<char> {
        match self {
            ImportObject::Import(import) => import@.name,
            ImportObject::Wasi(_) => wasi_name(),
        }
    }

    /// The index of the cell that the import object's handle holds.
    pub open spec fn cell(&self) -> int {
        match self {
            ImportObject::Import(import) => import@.cell,
            ImportObject::Wasi(wasi) => wasi@.cell,
        }
    }

    /// The name of the import object.
    pub fn name(&self) -> (name: &str)
        ensures
            name@ == self.spec_name(),
    {
        match self {
            ImportObject::Import(import) => import.name(),
            ImportObject::Wasi(wasi) => wasi.name(),
        }
    }

    /// The address of the module instance context.
    pub fn as_raw_ptr<F, A>(&self, bridge: &Bridge<F, A>) -> (ctx: usize)
        ensures
            ctx == bridge@.ctx_at(self.cell()),
    {
        match self {
            ImportObject::Import(import) => import.as_ptr(bridge),
            ImportObject::Wasi(wasi) => wasi.as_ptr(bridge),
        }
    }
}

} // verus!
