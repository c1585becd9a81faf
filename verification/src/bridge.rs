//! The process-wide tables of the bridge: the closure registry, the
//! footprint table, and the cells through which handles share a native
//! context.
//!
//! A [`Bridge`] is an ordinary value. Whoever needs one table for a whole
//! process keeps a single bridge behind a lock; every operation here takes
//! the bridge that the lock guards.

use std::collections::HashMap;
use rand::Rng;
use vstd::prelude::*;

verus! {

broadcast use vstd::std_specs::hash::group_hash_axioms;

/// A registered host closure: a synchronous one, called in place, or an
/// asynchronous one, which hands out a future.
pub enum HostFn<F, A> {
    /// A closure that the trampoline calls and waits for.
    Sync(F),
    /// A closure whose future the asynchronous trampoline drives.
    Async(A),
}

/// A native context as its handles share it: the context's address and the
/// number of handles that hold it.
#[derive(Clone, Copy, Debug, PartialEq, Eq, Structural)]
pub struct Cell {
    /// The address of the native context; 0 once it was given away.
    pub ctx: usize,
    /// The number of handles that hold the cell; 0 marks a free cell.
    pub strong: usize,
}

/// What the engine has to do next. A list of steps is carried out in
/// order.
#[derive(Clone, Copy, Debug, PartialEq, Eq, Structural)]
pub enum Step {
    /// Reclaim the user data attached to the function context.
    FreeUserData(usize),
    /// Delete the function context.
    DeleteFunction(usize),
    /// Delete the function type context.
    DeleteFuncType(usize),
    /// Delete the module instance context.
    DeleteModule(usize),
    /// Add a function context to a module instance, under the name that
    /// the caller chose.
    AddFunction {
        /// The address of the module instance context.
        module: usize,
        /// The address of the function context.
        func: usize,
    },
    /// Add a table context to a module instance.
    AddTable {
        /// The address of the module instance context.
        module: usize,
        /// The address of the table context.
        table: usize,
    },
    /// Add a memory context to a module instance.
    AddMemory {
        /// The address of the module instance context.
        module: usize,
        /// The address of the memory context.
        memory: usize,
    },
    /// Add a global context to a module instance.
    AddGlobal {
        /// The address of the module instance context.
        module: usize,
        /// The address of the global context.
        global: usize,
    },
}

/// The mathematical content of a [`Bridge`].
pub struct Tables<F, A> {
    /// The closure registry: key to closure.
    pub funcs: Map<usize, HostFn<F, A>>,
    /// The footprint table: address of a function context to its key.
    pub footprints: Map<usize, usize>,
    /// The cells, by index.
    pub cells: Seq<Cell>,
}

impl<F, A> Tables<F, A> {
    /// The tables of a process that has registered nothing yet.
    pub open spec fn empty() -> Self {
        Tables { funcs: Map::empty(), footprints: Map::empty(), cells: Seq::empty() }
    }

    /// Every footprint leads to a registered closure, no two footprints
    /// lead to the same one, and no footprint is the null address.
    pub open spec fn wf(self) -> bool {
        &&& self.funcs.dom().finite()
        &&& self.footprints.dom().finite()
        &&& !self.footprints.contains_key(0)
        &&& forall|fp: usize| #[trigger]
            self.footprints.contains_key(fp) ==> self.funcs.contains_key(self.footprints[fp])
        &&& forall|a: usize, b: usize|
            #![trigger self.footprints[a], self.footprints[b]]
            self.footprints.contains_key(a) && self.footprints.contains_key(b)
                && self.footprints[a] == self.footprints[b] ==> a == b
    }

    /// The keys of the synchronous closures.
    pub open spec fn sync_keys(self) -> Set<usize> {
        Set::new(|k: usize| self.funcs.contains_key(k) && self.funcs[k] is Sync)
    }

    /// The keys of the asynchronous closures.
    pub open spec fn async_keys(self) -> Set<usize> {
        Set::new(|k: usize| self.funcs.contains_key(k) && self.funcs[k] is Async)
    }

    /// The synchronous closure behind a key.
    pub open spec fn sync_fn(self, key: usize) -> Option<F> {
        if self.sync_keys().contains(key) {
            Some(self.funcs[key]->Sync_0)
        } else {
            None
        }
    }

    /// The asynchronous closure behind a key.
    pub open spec fn async_fn(self, key: usize) -> Option<A> {
        if self.async_keys().contains(key) {
            Some(self.funcs[key]->Async_0)
        } else {
            None
        }
    }

    /// Some function context was created for the key.
    pub open spec fn bound(self, key: usize) -> bool {
        exists|fp: usize| #[trigger] self.footprints.contains_key(fp) && self.footprints[fp] == key
    }

    /// The key is registered and waits for its function context.
    pub open spec fn pending(self, key: usize) -> bool {
        self.funcs.contains_key(key) && !self.bound(key)
    }

    /// The tables after a closure was registered under a key.
    pub open spec fn with_fn(self, key: usize, closure: HostFn<F, A>) -> Self {
        Tables { funcs: self.funcs.insert(key, closure), ..self }
    }

    /// The tables after a key's closure was removed, and with it the
    /// footprint that led to the key.
    pub open spec fn without_key(self, key: usize) -> Self {
        Tables {
            funcs: self.funcs.remove(key),
            footprints: self.footprints.restrict(
                Set::new(|fp: usize| self.footprints.contains_key(fp) && self.footprints[fp] != key),
            ),
            ..self
        }
    }

    /// The tables after a footprint was recorded for a key.
    pub open spec fn with_footprint(self, footprint: usize, key: usize) -> Self {
        Tables { footprints: self.footprints.insert(footprint, key), ..self }
    }

    /// The tables after the function behind a footprint was torn down: the
    /// footprint is gone, and so is the closure that it led to.
    pub open spec fn torn_down(self, footprint: usize) -> Self {
        Tables {
            funcs: self.funcs.remove(self.footprints[footprint]),
            footprints: self.footprints.remove(footprint),
            ..self
        }
    }

    /// `cell` is the cell that the next handle gets: the first free one,
    /// or a new one behind the last where none is free.
    pub open spec fn is_free_cell(self, cell: int) -> bool {
        &&& 0 <= cell <= self.cells.len()
        &&& forall|j: int| 0 <= j < cell ==> (#[trigger] self.cells[j]).strong > 0
        &&& cell < self.cells.len() ==> self.cells[cell].strong == 0
    }

    /// The address in a cell; null for a cell that the tables do not have.
    pub open spec fn ctx_at(self, cell: int) -> usize {
        if 0 <= cell < self.cells.len() {
            self.cells[cell].ctx
        } else {
            0
        }
    }

    /// The number of handles on a cell; 0 for a cell that the tables do
    /// not have.
    pub open spec fn strong_at(self, cell: int) -> usize {
        if 0 <= cell < self.cells.len() {
            self.cells[cell].strong
        } else {
            0
        }
    }

    /// Some handle holds the cell.
    pub open spec fn live(self, cell: int) -> bool {
        0 <= cell < self.cells.len() && self.cells[cell].strong >= 1
    }

    /// The tables after a first handle took the cell for a native context.
    pub open spec fn with_cell(self, cell: int, ctx: usize) -> Self {
        let held = Cell { ctx, strong: 1 };
        Tables {
            cells: if cell < self.cells.len() {
                self.cells.update(cell, held)
            } else {
                self.cells.push(held)
            },
            ..self
        }
    }

    /// The tables after one more handle took hold of a cell. A cell that
    /// no handle holds cannot be shared: the tables stay as they are.
    pub open spec fn retained(self, cell: int) -> Self {
        if self.live(cell) {
            let held = self.cells[cell];
            Tables {
                cells: self.cells.update(
                    cell,
                    Cell { ctx: held.ctx, strong: (held.strong + 1) as usize },
                ),
                ..self
            }
        } else {
            self
        }
    }

    /// The tables after one handle let go of a cell. A cell that no
    /// handle holds cannot be let go of: the tables stay as they are.
    pub open spec fn released(self, cell: int) -> Self {
        if self.live(cell) {
            let held = self.cells[cell];
            Tables {
                cells: self.cells.update(
                    cell,
                    Cell { ctx: held.ctx, strong: (held.strong - 1) as usize },
                ),
                ..self
            }
        } else {
            self
        }
    }

    /// The tables after a cell's native context was given away.
    pub open spec fn disowned(self, cell: int) -> Self {
        if 0 <= cell < self.cells.len() {
            Tables {
                cells: self.cells.update(cell, Cell { ctx: 0, strong: self.cells[cell].strong }),
                ..self
            }
        } else {
            self
        }
    }

    /// A footprint can be recorded for the key: the key waits for one,
    /// and the footprint is a new one and not the null address.
    pub open spec fn binds(self, key: usize, footprint: usize) -> bool {
        footprint != 0 && self.pending(key) && !self.footprints.contains_key(footprint)
    }
}

/// `key` is the least key that `taken` does not hold.
pub open spec fn is_first_free(taken: Set<usize>, key: usize) -> bool {
    &&& !taken.contains(key)
    &&& forall|j: usize| j < key ==> taken.contains(j)
}

/// A finite set that holds every key below `n` has at least `n` members.
proof fn lemma_prefix_card(taken: Set<usize>, n: nat)
    requires
        taken.finite(),
        n <= usize::MAX + 1,
        forall|j: usize| j < n ==> taken.contains(j),
    ensures
        taken.len() >= n,
    decreases n,
{
    if n > 0 {
        let last = (n - 1) as usize;
        let rest = taken.remove(last);
        assert forall|j: usize| j < n - 1 implies rest.contains(j) by {
            assert(taken.contains(j));
        }
        lemma_prefix_card(rest, (n - 1) as nat);
    }
}

/// The keys of one kind are among the registered keys: finitely many, and
/// no more than there are closures.
pub proof fn lemma_kind_keys<F, A>(t: Tables<F, A>)
    requires
        t.funcs.dom().finite(),
    ensures
        t.sync_keys().finite(),
        t.async_keys().finite(),
        t.sync_keys().len() <= t.funcs.dom().len(),
        t.async_keys().len() <= t.funcs.dom().len(),
{
    vstd::set_lib::lemma_len_subset(t.sync_keys(), t.funcs.dom());
    vstd::set_lib::lemma_len_subset(t.async_keys(), t.funcs.dom());
}

/// Registering under a fresh key adds the key to the keys of its kind and
/// leaves the other kind alone.
pub proof fn lemma_with_fn_keys<F, A>(t: Tables<F, A>, key: usize, closure: HostFn<F, A>)
    requires
        t.funcs.dom().finite(),
        !t.funcs.contains_key(key),
    ensures
        closure is Sync ==> t.with_fn(key, closure).sync_keys() == t.sync_keys().insert(key)
            && t.with_fn(key, closure).async_keys() == t.async_keys(),
        closure is Async ==> t.with_fn(key, closure).async_keys() == t.async_keys().insert(key)
            && t.with_fn(key, closure).sync_keys() == t.sync_keys(),
        closure is Sync ==> t.with_fn(key, closure).sync_keys().len() == t.sync_keys().len() + 1,
        closure is Async ==> t.with_fn(key, closure).async_keys().len() == t.async_keys().len()
            + 1,
{
    lemma_kind_keys(t);
    let u = t.with_fn(key, closure);
    if closure is Sync {
        assert(u.sync_keys() =~= t.sync_keys().insert(key));
        assert(u.async_keys() =~= t.async_keys());
    } else {
        assert(u.async_keys() =~= t.async_keys().insert(key));
        assert(u.sync_keys() =~= t.sync_keys());
    }
}

/// Removing a key takes it from the keys of its kind and leaves the other
/// kind alone.
pub proof fn lemma_without_key_keys<F, A>(t: Tables<F, A>, key: usize)
    requires
        t.funcs.dom().finite(),
    ensures
        t.without_key(key).sync_keys() == t.sync_keys().remove(key),
        t.without_key(key).async_keys() == t.async_keys().remove(key),
        t.sync_keys().contains(key) ==> t.without_key(key).sync_keys().len() + 1
            == t.sync_keys().len(),
        t.async_keys().contains(key) ==> t.without_key(key).async_keys().len() + 1
            == t.async_keys().len(),
{
    lemma_kind_keys(t);
    let u = t.without_key(key);
    assert(u.sync_keys() =~= t.sync_keys().remove(key));
    assert(u.async_keys() =~= t.async_keys().remove(key));
}

/// Removing a key keeps the tables well formed.
pub proof fn lemma_without_key_wf<F, A>(t: Tables<F, A>, key: usize)
    requires
        t.wf(),
    ensures
        t.without_key(key).wf(),
        !t.without_key(key).funcs.contains_key(key),
        !t.without_key(key).bound(key),
        forall|fp: usize|
            t.footprints.contains_key(fp) && t.footprints[fp] == key ==> t.without_key(
                key,
            ).footprints == t.footprints.remove(fp),
        !t.bound(key) ==> t.without_key(key).footprints == t.footprints,
{
    let u = t.without_key(key);
    assert forall|fp: usize|
        t.footprints.contains_key(fp) && t.footprints[fp] == key implies u.footprints
        == t.footprints.remove(fp) by {
        assert(u.footprints =~= t.footprints.remove(fp));
    }
    if !t.bound(key) {
        assert(u.footprints =~= t.footprints);
    }
}

/// Recording a footprint for a key that waits for one keeps the tables
/// well formed.
pub proof fn lemma_with_footprint_wf<F, A>(t: Tables<F, A>, footprint: usize, key: usize)
    requires
        t.wf(),
        t.pending(key),
        footprint != 0,
        !t.footprints.contains_key(footprint),
    ensures
        t.with_footprint(footprint, key).wf(),
        t.with_footprint(footprint, key).bound(key),
{
    let u = t.with_footprint(footprint, key);
    assert(u.footprints.contains_key(footprint));
    assert forall|a: usize, b: usize|
        u.footprints.contains_key(a) && u.footprints.contains_key(b) && u.footprints[a]
            == u.footprints[b] implies a == b by {
        if a != footprint && b == footprint {
            assert(t.footprints.contains_key(a) && t.footprints[a] == key);
        }
        if b != footprint && a == footprint {
            assert(t.footprints.contains_key(b) && t.footprints[b] == key);
        }
    }
}

/// Tearing down the function behind a footprint removes its key, and
/// keeps the tables well formed.
pub proof fn lemma_torn_down_wf<F, A>(t: Tables<F, A>, footprint: usize)
    requires
        t.wf(),
        t.footprints.contains_key(footprint),
    ensures
        t.torn_down(footprint) == t.without_key(t.footprints[footprint]),
        t.torn_down(footprint).wf(),
{
    lemma_without_key_wf(t, t.footprints[footprint]);
}

/// How often a key is drawn at random before the registry is searched for
/// a free one.
pub const KEY_DRAWS: usize = 16;

/// `draws` is a run of draws for a key that ends with `candidate`: the run
/// went on as long as the key drawn was taken, and no longer than
/// [`KEY_DRAWS`] draws. So every draw but the last hit a taken key, and a
/// run that ends on a taken key is [`KEY_DRAWS`] draws long.
pub open spec fn settles_on(taken: Set<usize>, draws: Seq<usize>, candidate: usize) -> bool {
    &&& 1 <= draws.len() <= KEY_DRAWS
    &&& draws.last() == candidate
    &&& forall|i: int| 0 <= i < draws.len() - 1 ==> taken.contains(#[trigger] draws[i])
    &&& taken.contains(candidate) ==> draws.len() == KEY_DRAWS
}

/// Calls `rand::thread_rng` and, on the generator, `Rng::gen` for a
/// `usize`. Nothing is claimed of the number drawn. (The generator panics
/// where the system gives it no seed.)
#[verifier::external_body]
fn draw_key() -> usize {
    rand::thread_rng().gen()
}

/// The tables as they are kept: the three maps, the cells, and the counts
/// of the closures of each kind.
struct State<F, A> {
    funcs: HashMap<usize, HostFn<F, A>>,
    footprints: HashMap<usize, usize>,
    bound: HashMap<usize, usize>,
    cells: Vec<Cell>,
    sync_count: usize,
    async_count: usize,
}

impl<F, A> View for State<F, A> {
    type V = Tables<F, A>;

    closed spec fn view(&self) -> Tables<F, A> {
        Tables { funcs: self.funcs@, footprints: self.footprints@, cells: self.cells@ }
    }
}

impl<F, A> State<F, A> {
    /// The tables are well formed, and the bridge's own bookkeeping agrees
    /// with them.
    spec fn wf(&self) -> bool {
        &&& self@.wf()
        &&& self.sync_count == self@.sync_keys().len()
        &&& self.async_count == self@.async_keys().len()
        &&& forall|fp: usize| #[trigger]
            self.footprints@.contains_key(fp) ==> self.bound@.contains_key(self.footprints@[fp])
                && self.bound@[self.footprints@[fp]] == fp
        &&& forall|key: usize| #[trigger]
            self.bound@.contains_key(key) ==> self.footprints@.contains_key(self.bound@[key])
                && self.footprints@[self.bound@[key]] == key
    }

    /// The state with nothing registered.
    fn new() -> (bridge: Self)
        ensures
            bridge.wf(),
            bridge@ == Tables::<F, A>::empty(),
    {
        let bridge = State {
            funcs: HashMap::new(),
            footprints: HashMap::new(),
            bound: HashMap::new(),
            cells: Vec::new(),
            sync_count: 0,
            async_count: 0,
        };
        proof {
            assert(bridge@.sync_keys() =~= Set::<usize>::empty());
            assert(bridge@.async_keys() =~= Set::<usize>::empty());
        }
        bridge
    }

    /// Whether a closure is registered under the key.
    fn contains(&self, key: usize) -> (found: bool)
        ensures
            found == self@.funcs.contains_key(key),
    {
        self.funcs.contains_key(&key)
    }

    /// The least key under which nothing is registered.
    fn first_free(&self) -> (key: usize)
        ensures
            is_first_free(self@.funcs.dom(), key),
    {
        let mut key: usize = 0;
        while self.funcs.contains_key(&key)
            invariant
                forall|j: usize| j < key ==> self.funcs@.dom().contains(j),
                self.funcs@.dom().finite(),
            decreases usize::MAX - key,
        {
            proof {
                lemma_prefix_card(self.funcs@.dom(), (key + 1) as nat);
                assert(self.funcs@.len() == self.funcs.len());
            }
            key = key + 1;
        }
        key
    }

    /// Registers a closure under `candidate` if that key is free, and
    /// under the least free key if not. Returns the key.
    fn register_at(&mut self, candidate: usize, closure: HostFn<F, A>) -> (key: usize)
        requires
            old(self).wf(),
        ensures
            final(self).wf(),
            !old(self)@.funcs.contains_key(candidate) ==> key == candidate,
            old(self)@.funcs.contains_key(candidate) ==> is_first_free(
                old(self)@.funcs.dom(),
                key,
            ),
            !old(self)@.funcs.contains_key(key),
            final(self)@ == old(self)@.with_fn(key, closure),
    {
        let key = if self.funcs.contains_key(&candidate) {
            self.first_free()
        } else {
            candidate
        };
        let is_sync = match &closure {
            HostFn::Sync(_) => true,
            HostFn::Async(_) => false,
        };
        proof {
            lemma_with_fn_keys(self@, key, closure);
            assert forall|k: usize| #[trigger] self.bound@.contains_key(k) implies k != key by {
                assert(self.footprints@.contains_key(self.bound@[k]));
            }
        }
        self.funcs.insert(key, closure);
        proof {
            lemma_kind_keys(self@);
            assert(self.funcs@.len() == self.funcs.len());
        }
        if is_sync {
            self.sync_count = self.sync_count + 1;
        } else {
            self.async_count = self.async_count + 1;
        }
        key
    }

    /// Registers a synchronous closure under a key that nothing else is
    /// registered under, and returns the key. The key is drawn at random;
    /// after [`KEY_DRAWS`] draws that all collide, the least free key is
    /// taken, so that a registration always ends.
    fn register(&mut self, real_fn: F) -> (key: usize)
        requires
            old(self).wf(),
        ensures
            final(self).wf(),
            !old(self)@.funcs.contains_key(key),
            final(self)@ == old(self)@.with_fn(key, HostFn::Sync(real_fn)),
    {
        let (candidate, _) = self.draw_candidate();
        self.register_at(candidate, HostFn::Sync(real_fn))
    }

    /// Registers an asynchronous closure, as [`State::register`] does a
    /// synchronous one.
    fn register_async(&mut self, real_fn: A) -> (key: usize)
        requires
            old(self).wf(),
        ensures
            final(self).wf(),
            !old(self)@.funcs.contains_key(key),
            final(self)@ == old(self)@.with_fn(key, HostFn::Async(real_fn)),
    {
        let (candidate, _) = self.draw_candidate();
        self.register_at(candidate, HostFn::Async(real_fn))
    }

    /// Draws keys at random until one is free, [`KEY_DRAWS`] times at
    /// most, and returns the last one drawn, with the run of the keys
    /// that were drawn.
    fn draw_candidate(&self) -> (res: (usize, Ghost<Seq<usize>>))
        ensures
            settles_on(self@.funcs.dom(), res.1@, res.0),
    {
        let mut candidate = draw_key();
        let mut draws: usize = 1;
        let ghost mut drawn: Seq<usize> = seq![candidate];
        while draws < KEY_DRAWS && self.funcs.contains_key(&candidate)
            invariant
                1 <= draws <= KEY_DRAWS,
                drawn.len() == draws,
                drawn.last() == candidate,
                forall|i: int|
                    0 <= i < drawn.len() - 1 ==> self@.funcs.dom().contains(#[trigger] drawn[i]),
            decreases KEY_DRAWS - draws,
        {
            candidate = draw_key();
            draws = draws + 1;
            proof {
                drawn = drawn.push(candidate);
            }
        }
        (candidate, Ghost(drawn))
    }

    /// The synchronous closure registered under the key.
    fn lookup(&self, key: usize) -> (found: Option<&F>)
        ensures
            found is Some <==> self@.sync_fn(key) is Some,
            found matches Some(f) ==> self@.sync_fn(key) == Some(*f),
    {
        match self.funcs.get(&key) {
            Some(HostFn::Sync(f)) => Some(f),
            _ => None,
        }
    }

    /// The asynchronous closure registered under the key.
    fn lookup_async(&self, key: usize) -> (found: Option<&A>)
        ensures
            found is Some <==> self@.async_fn(key) is Some,
            found matches Some(f) ==> self@.async_fn(key) == Some(*f),
    {
        match self.funcs.get(&key) {
            Some(HostFn::Async(f)) => Some(f),
            _ => None,
        }
    }

    /// Removes the closure registered under the key and the footprint that
    /// leads to it. Removing what is not there changes nothing. Returns
    /// whether a closure was removed.
    fn remove(&mut self, key: usize) -> (removed: bool)
        requires
            old(self).wf(),
        ensures
            final(self).wf(),
            removed == old(self)@.funcs.contains_key(key),
            final(self)@ == old(self)@.without_key(key),
    {
        proof {
            lemma_without_key_keys(self@, key);
            lemma_without_key_wf(self@, key);
            lemma_kind_keys(self@);
        }
        match self.bound.remove(&key) {
            Some(fp) => {
                self.footprints.remove(&fp);
            },
            None => {
                proof {
                    assert(!old(self)@.bound(key));
                }
            },
        }
        match self.funcs.remove(&key) {
            Some(HostFn::Sync(_)) => {
                self.sync_count = self.sync_count - 1;
                true
            },
            Some(HostFn::Async(_)) => {
                self.async_count = self.async_count - 1;
                true
            },
            None => {
                proof {
                    assert(old(self)@.sync_keys().remove(key) =~= old(self)@.sync_keys());
                    assert(old(self)@.async_keys().remove(key) =~= old(self)@.async_keys());
                }
                false
            },
        }
    }

    /// The number of synchronous closures registered.
    fn host_funcs_len(&self) -> (len: usize)
        requires
            self.wf(),
        ensures
            len == self@.sync_keys().len(),
    {
        self.sync_count
    }

    /// The number of asynchronous closures registered.
    fn async_host_funcs_len(&self) -> (len: usize)
        requires
            self.wf(),
        ensures
            len == self@.async_keys().len(),
    {
        self.async_count
    }

    /// The number of footprints recorded.
    fn footprints_len(&self) -> (len: usize)
        ensures
            len == self@.footprints.dom().len(),
    {
        self.footprints.len()
    }

    /// The key that a function context's footprint leads to.
    fn key_of(&self, footprint: usize) -> (key: Option<usize>)
        ensures
            key == (if self@.footprints.contains_key(footprint) {
                Some(self@.footprints[footprint])
            } else {
                None
            }),
    {
        match self.footprints.get(&footprint) {
            Some(key) => Some(*key),
            None => None,
        }
    }

    /// Whether the key is registered and waits for its function context.
    fn is_pending(&self, key: usize) -> (pending: bool)
        requires
            self.wf(),
        ensures
            pending == self@.pending(key),
    {
        let pending = self.funcs.contains_key(&key) && !self.bound.contains_key(&key);
        proof {
            if self.bound@.contains_key(key) {
                assert(self.footprints@.contains_key(self.bound@[key]));
            }
        }
        pending
    }

    /// The number of cells, free ones included.
    fn cells_len(&self) -> (len: usize)
        ensures
            len == self@.cells.len(),
    {
        self.cells.len()
    }

    /// The cell at an index; a free cell where the index is past the last.
    fn cell(&self, cell: usize) -> (held: Cell)
        ensures
            cell < self@.cells.len() ==> held == self@.cells[cell as int],
            cell >= self@.cells.len() ==> held == (Cell { ctx: 0, strong: 0 }),
    {
        if cell < self.cells.len() {
            self.cells[cell]
        } else {
            Cell { ctx: 0, strong: 0 }
        }
    }

    /// Takes the first free cell for a native context, with one handle
    /// holding it. Returns the cell's index.
    fn hold(&mut self, ctx: usize) -> (cell: usize)
        requires
            old(self).wf(),
        ensures
            final(self).wf(),
            old(self)@.is_free_cell(cell as int),
            final(self)@ == old(self)@.with_cell(cell as int, ctx),
            final(self)@.live(cell as int),
    {
        let held = Cell { ctx, strong: 1 };
        let mut cell: usize = 0;
        while cell < self.cells.len() && self.cells[cell].strong > 0
            invariant
                cell <= self.cells.len(),
                forall|j: int| 0 <= j < cell ==> (#[trigger] self.cells@[j]).strong > 0,
            decreases self.cells.len() - cell,
        {
            cell = cell + 1;
        }
        if cell < self.cells.len() {
            self.cells.set(cell, held);
        } else {
            self.cells.push(held);
        }
        cell
    }

    /// Counts one more handle on a cell. Nothing changes where no handle
    /// holds the cell.
    fn retain(&mut self, cell: usize)
        requires
            old(self).wf(),
            old(self)@.strong_at(cell as int) < usize::MAX,
        ensures
            final(self).wf(),
            final(self)@ == old(self)@.retained(cell as int),
    {
        let held = self.cell(cell);
        if held.strong > 0 {
            self.cells.set(cell, Cell { ctx: held.ctx, strong: held.strong + 1 });
        }
    }

    /// Counts one handle less on a cell. Nothing changes where no handle
    /// holds the cell.
    fn release(&mut self, cell: usize)
        requires
            old(self).wf(),
        ensures
            final(self).wf(),
            final(self)@ == old(self)@.released(cell as int),
    {
        let held = self.cell(cell);
        if held.strong > 0 {
            self.cells.set(cell, Cell { ctx: held.ctx, strong: held.strong - 1 });
        }
    }

    /// Marks a cell's native context as given away: the cell keeps its
    /// handles and loses the address.
    fn disown(&mut self, cell: usize)
        requires
            old(self).wf(),
        ensures
            final(self).wf(),
            final(self)@ == old(self)@.disowned(cell as int),
    {
        if cell < self.cells.len() {
            let held = self.cells[cell];
            self.cells.set(cell, Cell { ctx: 0, strong: held.strong });
        }
    }

    /// Records the footprint of the function context that the engine made
    /// for a key, where the key waits for one and the footprint is a new
    /// one and not null. Returns whether it was recorded; nothing changes
    /// where it was not.
    fn bind(&mut self, key: usize, footprint: usize) -> (bound: bool)
        requires
            old(self).wf(),
        ensures
            final(self).wf(),
            bound == old(self)@.binds(key, footprint),
            bound ==> final(self)@ == old(self)@.with_footprint(footprint, key),
            !bound ==> final(self)@ == old(self)@,
    {
        if footprint == 0 || !self.is_pending(key) || self.footprints.contains_key(&footprint) {
            return false;
        }
        proof {
            lemma_with_footprint_wf(self@, footprint, key);
            assert(!self.bound@.contains_key(key)) by {
                if self.bound@.contains_key(key) {
                    assert(self.footprints@.contains_key(self.bound@[key]));
                }
            }
        }
        self.footprints.insert(footprint, key);
        self.bound.insert(key, footprint);
        true
    }

    /// Removes a footprint and the closure that it leads to. Returns
    /// whether the footprint was there; nothing changes where it was not.
    fn tear_down(&mut self, footprint: usize) -> (found: bool)
        requires
            old(self).wf(),
        ensures
            final(self).wf(),
            found == old(self)@.footprints.contains_key(footprint),
            found ==> final(self)@ == old(self)@.torn_down(footprint),
            !found ==> final(self)@ == old(self)@,
    {
        match self.key_of(footprint) {
            Some(key) => {
                proof {
                    lemma_torn_down_wf(self@, footprint);
                }
                self.remove(key);
                true
            },
            None => false,
        }
    }
}

/// The bridge's tables.
///
/// Every bridge is well formed, at every moment: its tables satisfy
/// [`Tables::wf`]. No operation asks for that, and each says that it is
/// kept.
pub struct Bridge<F, A> {
    state: State<F, A>,
}

impl<F, A> View for Bridge<F, A> {
    type V = Tables<F, A>;

    closed spec fn view(&self) -> Tables<F, A> {
        self.state@
    }
}

impl<F, A> Bridge<F, A> {
    #[verifier::type_invariant]
    spec fn kept(&self) -> bool {
        self.state.wf()
    }

    /// A bridge with nothing registered.
    pub fn new() -> (bridge: Self)
        ensures
            bridge@ == Tables::<F, A>::empty(),
    {
        Bridge { state: State::new() }
    }

    /// Does nothing, and tells the caller that the tables are well
    /// formed.
    pub fn well_formed(&self)
        ensures
            self@.wf(),
    {
        proof {
            use_type_invariant(self);
        }
    }

    /// Whether a closure is registered under the key.
    pub fn contains(&self, key: usize) -> (found: bool)
        ensures
            found == self@.funcs.contains_key(key),
    {
        self.state.contains(key)
    }

    /// The least key under which nothing is registered.
    pub fn first_free(&self) -> (key: usize)
        ensures
            is_first_free(self@.funcs.dom(), key),
    {
        self.state.first_free()
    }

    /// Registers a closure under `candidate` if that key is free, and
    /// under the least free key if not. Returns the key.
    pub fn register_at(&mut self, candidate: usize, closure: HostFn<F, A>) -> (key: usize)
        ensures
            final(self)@.wf(),
            !old(self)@.funcs.contains_key(candidate) ==> key == candidate,
            old(self)@.funcs.contains_key(candidate) ==> is_first_free(
                old(self)@.funcs.dom(),
                key,
            ),
            !old(self)@.funcs.contains_key(key),
            final(self)@ == old(self)@.with_fn(key, closure),
    {
        proof {
            use_type_invariant(&*self);
        }
        let mut state = State::new();
        std::mem::swap(&mut state, &mut self.state);
        let key = state.register_at(candidate, closure);
        self.state = state;
        key
    }

    /// Registers a synchronous closure under a key that nothing else is
    /// registered under, and returns the key. The key is drawn at random;
    /// after [`KEY_DRAWS`] draws that all collide, the least free key is
    /// taken, so that a registration always ends.
    pub fn register(&mut self, real_fn: F) -> (key: usize)
        ensures
            final(self)@.wf(),
            !old(self)@.funcs.contains_key(key),
            final(self)@ == old(self)@.with_fn(key, HostFn::Sync(real_fn)),
    {
        proof {
            use_type_invariant(&*self);
        }
        let mut state = State::new();
        std::mem::swap(&mut state, &mut self.state);
        let key = state.register(real_fn);
        self.state = state;
        key
    }

    /// Registers an asynchronous closure, as [`Bridge::register`] does a
    /// synchronous one.
    pub fn register_async(&mut self, real_fn: A) -> (key: usize)
        ensures
            final(self)@.wf(),
            !old(self)@.funcs.contains_key(key),
            final(self)@ == old(self)@.with_fn(key, HostFn::Async(real_fn)),
    {
        proof {
            use_type_invariant(&*self);
        }
        let mut state = State::new();
        std::mem::swap(&mut state, &mut self.state);
        let key = state.register_async(real_fn);
        self.state = state;
        key
    }

    /// The synchronous closure registered under the key.
    pub fn lookup(&self, key: usize) -> (found: Option<&F>)
        ensures
            found is Some <==> self@.sync_fn(key) is Some,
            found matches Some(f) ==> self@.sync_fn(key) == Some(*f),
    {
        self.state.lookup(key)
    }

    /// The asynchronous closure registered under the key.
    pub fn lookup_async(&self, key: usize) -> (found: Option<&A>)
        ensures
            found is Some <==> self@.async_fn(key) is Some,
            found matches Some(f) ==> self@.async_fn(key) == Some(*f),
    {
        self.state.lookup_async(key)
    }

    /// Removes the closure registered under the key and the footprint that
    /// leads to it. Removing what is not there changes nothing. Returns
    /// whether a closure was removed.
    pub fn remove(&mut self, key: usize) -> (removed: bool)
        ensures
            final(self)@.wf(),
            removed == old(self)@.funcs.contains_key(key),
            final(self)@ == old(self)@.without_key(key),
    {
        proof {
            use_type_invariant(&*self);
        }
        let mut state = State::new();
        std::mem::swap(&mut state, &mut self.state);
        let removed = state.remove(key);
        self.state = state;
        removed
    }

    /// The number of synchronous closures registered.
    pub fn host_funcs_len(&self) -> (len: usize)
        ensures
            len == self@.sync_keys().len(),
    {
        proof {
            use_type_invariant(self);
        }
        self.state.host_funcs_len()
    }

    /// The number of asynchronous closures registered.
    pub fn async_host_funcs_len(&self) -> (len: usize)
        ensures
            len == self@.async_keys().len(),
    {
        proof {
            use_type_invariant(self);
        }
        self.state.async_host_funcs_len()
    }

    /// The number of footprints recorded.
    pub fn footprints_len(&self) -> (len: usize)
        ensures
            len == self@.footprints.dom().len(),
    {
        self.state.footprints_len()
    }

    /// The key that a function context's footprint leads to.
    pub fn key_of(&self, footprint: usize) -> (key: Option<usize>)
        ensures
            key == (if self@.footprints.contains_key(footprint) {
                Some(self@.footprints[footprint])
            } else {
                None
            }),
    {
        self.state.key_of(footprint)
    }

    /// Whether the key is registered and waits for its function context.
    pub fn is_pending(&self, key: usize) -> (pending: bool)
        ensures
            pending == self@.pending(key),
    {
        proof {
            use_type_invariant(self);
        }
        self.state.is_pending(key)
    }

    /// The number of cells, free ones included.
    pub fn cells_len(&self) -> (len: usize)
        ensures
            len == self@.cells.len(),
    {
        self.state.cells_len()
    }

    /// The cell at an index; a free cell where the index is past the last.
    pub fn cell(&self, cell: usize) -> (held: Cell)
        ensures
            cell < self@.cells.len() ==> held == self@.cells[cell as int],
            cell >= self@.cells.len() ==> held == (Cell { ctx: 0, strong: 0 }),
    {
        self.state.cell(cell)
    }

    /// Takes the first free cell for a native context, with one handle
    /// holding it. Returns the cell's index.
    pub fn hold(&mut self, ctx: usize) -> (cell: usize)
        ensures
            final(self)@.wf(),
            old(self)@.is_free_cell(cell as int),
            final(self)@ == old(self)@.with_cell(cell as int, ctx),
            final(self)@.live(cell as int),
    {
        proof {
            use_type_invariant(&*self);
        }
        let mut state = State::new();
        std::mem::swap(&mut state, &mut self.state);
        let cell = state.hold(ctx);
        self.state = state;
        cell
    }

    /// Counts one more handle on a cell. Nothing changes where no handle
    /// holds the cell.
    pub fn retain(&mut self, cell: usize)
        requires
            old(self)@.strong_at(cell as int) < usize::MAX,
        ensures
            final(self)@.wf(),
            final(self)@ == old(self)@.retained(cell as int),
    {
        proof {
            use_type_invariant(&*self);
        }
        let mut state = State::new();
        std::mem::swap(&mut state, &mut self.state);
        state.retain(cell);
        self.state = state;
    }

    /// Counts one handle less on a cell. Nothing changes where no handle
    /// holds the cell.
    pub fn release(&mut self, cell: usize)
        ensures
            final(self)@.wf(),
            final(self)@ == old(self)@.released(cell as int),
    {
        proof {
            use_type_invariant(&*self);
        }
        let mut state = State::new();
        std::mem::swap(&mut state, &mut self.state);
        state.release(cell);
        self.state = state;
    }

    /// Marks a cell's native context as given away: the cell keeps its
    /// handles and loses the address.
    pub fn disown(&mut self, cell: usize)
        ensures
            final(self)@.wf(),
            final(self)@ == old(self)@.disowned(cell as int),
    {
        proof {
            use_type_invariant(&*self);
        }
        let mut state = State::new();
        std::mem::swap(&mut state, &mut self.state);
        state.disown(cell);
        self.state = state;
    }

    /// Records the footprint of the function context that the engine made
    /// for a key, where the key waits for one and the footprint is a new
    /// one and not null. Returns whether it was recorded; nothing changes
    /// where it was not.
    pub fn bind(&mut self, key: usize, footprint: usize) -> (bound: bool)
        ensures
            final(self)@.wf(),
            bound == old(self)@.binds(key, footprint),
            bound ==> final(self)@ == old(self)@.with_footprint(footprint, key),
            !bound ==> final(self)@ == old(self)@,
    {
        proof {
            use_type_invariant(&*self);
        }
        let mut state = State::new();
        std::mem::swap(&mut state, &mut self.state);
        let bound = state.bind(key, footprint);
        self.state = state;
        bound
    }

    /// Removes a footprint and the closure that it leads to. Returns
    /// whether the footprint was there; nothing changes where it was not.
    pub fn tear_down(&mut self, footprint: usize) -> (found: bool)
        ensures
            final(self)@.wf(),
            found == old(self)@.footprints.contains_key(footprint),
            found ==> final(self)@ == old(self)@.torn_down(footprint),
            !found ==> final(self)@ == old(self)@,
    {
        proof {
            use_type_invariant(&*self);
        }
        let mut state = State::new();
        std::mem::swap(&mut state, &mut self.state);
        let found = state.tear_down(footprint);
        self.state = state;
        found
    }
}

} // verus!
