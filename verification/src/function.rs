//! Function handles, function types and function references.
//!
//! A [`Function`] is one of possibly many handles on a native function
//! context. The handles share a cell of the [`Bridge`], which counts them.
//! A handle that the bridge created owns its context: when the last such
//! handle is released, the closure leaves the registry, the footprint
//! leaves the footprint table, and the engine is told to free the user
//! data and to delete the context, in this order. A handle that was found
//! by name in a module owns nothing, and its release tells the engine
//! nothing.
//!
//! The last handle that owns a context without a footprint cannot be
//! released: [`Function::release_fault`] tells, and the release leaves
//! such a handle out by `requires`.

use crate::bridge::{Bridge, Step, Tables};
use crate::error::{Fault, FuncError, WasmEdgeError};
use crate::value::{ValType, WasmValue};
use vstd::prelude::*;

verus! {

/// A handle on a native function context.
#[derive(Debug)]
pub struct Function {
    cell: usize,
    registered: bool,
    data_owner: bool,
}

/// What a [`Function`] is, mathematically.
pub struct FunctionView {
    /// The index of the cell that the handle holds.
    pub cell: int,
    /// The handle was found inside a module: it owns nothing.
    pub registered: bool,
    /// The user data attached to the context belongs to the function.
    pub data_owner: bool,
}

impl View for Function {
    type V = FunctionView;

    closed spec fn view(&self) -> FunctionView {
        FunctionView {
            cell: self.cell as int,
            registered: self.registered,
            data_owner: self.data_owner,
        }
    }
}

impl FunctionView {
    /// The address of the function context that the handle stands for.
    pub open spec fn ctx<F, A>(self, t: Tables<F, A>) -> usize {
        t.ctx_at(self.cell)
    }

    /// The number of handles that share the context.
    pub open spec fn strong<F, A>(self, t: Tables<F, A>) -> usize {
        t.strong_at(self.cell)
    }

    /// Releasing the handle tears the function down: the handle owns its
    /// context and is the last one on it.
    pub open spec fn tears_down<F, A>(self, t: Tables<F, A>) -> bool {
        t.live(self.cell) && !self.registered && self.strong(t) == 1
    }

    /// Releasing the handle is beyond repair: it would tear the function
    /// down, and the footprint table does not know the context.
    pub open spec fn faults<F, A>(self, t: Tables<F, A>) -> bool {
        self.tears_down(t) && !t.footprints.contains_key(self.ctx(t))
    }

    /// The tables after the handle was released.
    pub open spec fn released<F, A>(self, t: Tables<F, A>) -> Tables<F, A> {
        if self.tears_down(t) && t.footprints.contains_key(self.ctx(t)) {
            t.released(self.cell).torn_down(self.ctx(t))
        } else {
            t.released(self.cell)
        }
    }

    /// What the engine has to do after the handle was released.
    pub open spec fn release_steps<F, A>(self, t: Tables<F, A>) -> Seq<Step> {
        if self.tears_down(t) && t.footprints.contains_key(self.ctx(t)) {
            teardown_steps(self.ctx(t), self.data_owner)
        } else {
            Seq::empty()
        }
    }

    /// What is wrong with releasing the handle, if anything is.
    pub open spec fn release_fault<F, A>(self, t: Tables<F, A>) -> Option<Fault> {
        if self.faults(t) {
            Some(Fault::MissingFootprint { footprint: self.ctx(t) })
        } else {
            None
        }
    }
}

/// What the engine has to do for a function that was torn down: free the
/// user data where the function owns it, then delete the context unless
/// its address is null.
pub open spec fn teardown_steps(ctx: usize, data_owner: bool) -> Seq<Step> {
    let free = if data_owner {
        seq![Step::FreeUserData(ctx)]
    } else {
        Seq::<Step>::empty()
    };
    let delete = if ctx != 0 {
        seq![Step::DeleteFunction(ctx)]
    } else {
        Seq::<Step>::empty()
    };
    free + delete
}

/// The tables after a failed creation: the closure that waited under
/// `key` is withdrawn.
pub open spec fn withdrawn<F, A>(t: Tables<F, A>, key: usize) -> Tables<F, A> {
    if t.pending(key) {
        t.without_key(key)
    } else {
        t
    }
}

impl Function {
    /// The pointer to hand the engine for optional user data, and whether
    /// the function to be created will own the data.
    pub fn user_data(data: Option<usize>) -> (res: (usize, bool))
        ensures
            res == (match data {
                Some(ptr) => (ptr, true),
                None => (0usize, false),
            }),
    {
        match data {
            Some(ptr) => (ptr, true),
            None => (0, false),
        }
    }

    /// Makes the handle of a synchronous host function, after the closure
    /// was registered under `key` and the engine was asked for a context
    /// bound to the key and answered `ctx`. `data` is the user data handed
    /// to the engine, if any; the function owns it.
    ///
    /// Fails where the engine made no context (`ctx` is null), where no
    /// synchronous closure waits under `key`, or where `ctx` already has a
    /// footprint. A failure withdraws what waits under `key`.
    pub fn create_sync_func<F, A>(
        bridge: &mut Bridge<F, A>,
        key: usize,
        ctx: usize,
        data: Option<usize>,
    ) -> (res: Result<Function, WasmEdgeError>)
        ensures
            old(bridge)@.binds(key, ctx) && old(bridge)@.funcs[key] is Sync ==> {
                &&& res matches Ok(func)
                &&& func@.registered == false
                &&& func@.data_owner == (data is Some)
                &&& old(bridge)@.is_free_cell(func@.cell)
                &&& final(bridge)@ == old(bridge)@.with_footprint(ctx, key).with_cell(
                    func@.cell,
                    ctx,
                )
            },
            !(old(bridge)@.binds(key, ctx) && old(bridge)@.funcs[key] is Sync) ==> {
                &&& res matches Err(WasmEdgeError::Func(FuncError::Create))
                &&& final(bridge)@ == withdrawn(old(bridge)@, key)
            },
    {
        let (_, data_owner) = Function::user_data(data);
        if bridge.lookup(key).is_some() {
            Function::create_with_data(bridge, key, ctx, data_owner)
        } else {
            Function::withdraw(bridge, key);
            Err(WasmEdgeError::Func(FuncError::Create))
        }
    }

    /// Makes the handle of an asynchronous host function, as
    /// [`Function::create_sync_func`] does for a synchronous one.
    pub fn create_async_func<F, A>(
        bridge: &mut Bridge<F, A>,
        key: usize,
        ctx: usize,
        data: Option<usize>,
    ) -> (res: Result<Function, WasmEdgeError>)
        ensures
            old(bridge)@.binds(key, ctx) && old(bridge)@.funcs[key] is Async ==> {
                &&& res matches Ok(func)
                &&& func@.registered == false
                &&& func@.data_owner == (data is Some)
                &&& old(bridge)@.is_free_cell(func@.cell)
                &&& final(bridge)@ == old(bridge)@.with_footprint(ctx, key).with_cell(
                    func@.cell,
                    ctx,
                )
            },
            !(old(bridge)@.binds(key, ctx) && old(bridge)@.funcs[key] is Async) ==> {
                &&& res matches Err(WasmEdgeError::Func(FuncError::Create))
                &&& final(bridge)@ == withdrawn(old(bridge)@, key)
            },
    {
        let (_, data_owner) = Function::user_data(data);
        if bridge.lookup_async(key).is_some() {
            Function::create_with_data(bridge, key, ctx, data_owner)
        } else {
            Function::withdraw(bridge, key);
            Err(WasmEdgeError::Func(FuncError::Create))
        }
    }

    /// Makes the handle of a host function of either kind: records the
    /// footprint of `ctx` for `key` and takes a cell for the context.
    ///
    /// Fails where `ctx` is null, where nothing waits under `key`, or where
    /// `ctx` already has a footprint. A failure withdraws what waits under
    /// `key`.
    pub fn create_with_data<F, A>(
        bridge: &mut Bridge<F, A>,
        key: usize,
        ctx: usize,
        data_owner: bool,
    ) -> (res: Result<Function, WasmEdgeError>)
        ensures
            old(bridge)@.binds(key, ctx) ==> {
                &&& res matches Ok(func)
                &&& func@.registered == false
                &&& func@.data_owner == data_owner
                &&& old(bridge)@.is_free_cell(func@.cell)
                &&& final(bridge)@ == old(bridge)@.with_footprint(ctx, key).with_cell(
                    func@.cell,
                    ctx,
                )
            },
            !old(bridge)@.binds(key, ctx) ==> {
                &&& res matches Err(WasmEdgeError::Func(FuncError::Create))
                &&& final(bridge)@ == withdrawn(old(bridge)@, key)
            },
    {
        if bridge.bind(key, ctx) {
            let cell = bridge.hold(ctx);
            Ok(Function { cell, registered: false, data_owner })
        } else {
            Function::withdraw(bridge, key);
            Err(WasmEdgeError::Func(FuncError::Create))
        }
    }

    /// Takes back the registration that waits under `key`, if one does.
    fn withdraw<F, A>(bridge: &mut Bridge<F, A>, key: usize)
        ensures
            final(bridge)@ == withdrawn(old(bridge)@, key),
    {
        if bridge.is_pending(key) {
            bridge.remove(key);
        }
    }

    /// Makes the handle of a function whose context the engine bound to a
    /// trampoline of the caller's own. The bridge registers no closure and
    /// records no footprint for it; the handle owns the context.
    ///
    /// Fails where the engine made no context (`ctx` is null).
    pub fn create_with_custom_wrapper<F, A>(
        bridge: &mut Bridge<F, A>,
        ctx: usize,
        data_owner: bool,
    ) -> (res: Result<Function, WasmEdgeError>)
        ensures
            ctx != 0 ==> {
                &&& res matches Ok(func)
                &&& func@.registered == false
                &&& func@.data_owner == data_owner
                &&& old(bridge)@.is_free_cell(func@.cell)
                &&& final(bridge)@ == old(bridge)@.with_cell(func@.cell, ctx)
            },
            ctx == 0 ==> {
                &&& res matches Err(WasmEdgeError::Func(FuncError::Create))
                &&& final(bridge)@ == old(bridge)@
            },
    {
        if ctx != 0 {
            let cell = bridge.hold(ctx);
            Ok(Function { cell, registered: false, data_owner })
        } else {
            Err(WasmEdgeError::Func(FuncError::Create))
        }
    }

    /// Makes the handle of a function that the engine found by name inside
    /// a module. The handle owns nothing.
    pub fn found<F, A>(bridge: &mut Bridge<F, A>, ctx: usize) -> (func: Function)
        ensures
            func@.registered,
            !func@.data_owner,
            old(bridge)@.is_free_cell(func@.cell),
            final(bridge)@ == old(bridge)@.with_cell(func@.cell, ctx),
    {
        let cell = bridge.hold(ctx);
        Function { cell, registered: true, data_owner: false }
    }

    /// The index of the cell that the handle holds.
    pub fn cell(&self) -> (cell: usize)
        ensures
            cell == self@.cell,
    {
        self.cell
    }

    /// Whether the handle was found inside a module.
    pub fn registered(&self) -> (registered: bool)
        ensures
            registered == self@.registered,
    {
        self.registered
    }

    /// Whether the function owns the user data attached to its context.
    pub fn data_owner(&self) -> (data_owner: bool)
        ensures
            data_owner == self@.data_owner,
    {
        self.data_owner
    }

    /// The number of handles that share this handle's context; 0 for a
    /// handle that the bridge does not know.
    pub fn strong_count<F, A>(&self, bridge: &Bridge<F, A>) -> (count: usize)
        ensures
            count == bridge@.strong_at(self@.cell),
    {
        bridge.cell(self.cell).strong
    }

    /// The address of the function context; null for a handle that the
    /// bridge does not know.
    pub fn as_ptr<F, A>(&self, bridge: &Bridge<F, A>) -> (ctx: usize)
        ensures
            ctx == bridge@.ctx_at(self@.cell),
    {
        bridge.cell(self.cell).ctx
    }

    /// A reference to the function, which holds the context's address and
    /// no cell.
    pub fn as_ref<F, A>(&self, bridge: &Bridge<F, A>) -> (func_ref: FuncRef)
        ensures
            func_ref.inner == bridge@.ctx_at(self@.cell),
    {
        FuncRef { inner: self.as_ptr(bridge) }
    }

    /// Wraps the engine's answer to the question for the function's type:
    /// the address of a type context, and the parameter and return types
    /// that the context holds. The type is the engine's to delete.
    ///
    /// Fails where the engine knows no type (`ty_ctx` is null), and where
    /// a list is longer than the engine can count.
    pub fn ty(&self, ty_ctx: usize, params: Vec<ValType>, rets: Vec<ValType>) -> (res: Result<
        FuncType,
        WasmEdgeError,
    >)
        ensures
            FuncType::fits(ty_ctx, params@, rets@) ==> (res matches Ok(ty) && ty@ == (
            FuncTypeView { params: params@, rets: rets@, inner: ty_ctx, registered: true })),
            !FuncType::fits(ty_ctx, params@, rets@) ==> res matches Err(
                WasmEdgeError::Func(FuncError::Type),
            ),
    {
        FuncType::found(ty_ctx, params, rets)
    }

    /// Runs the function on an engine. The engine is handed a reference
    /// to the function and the arguments, and its answer is passed on.
    pub fn call<F, A, E, X>(&self, bridge: &Bridge<F, A>, engine: &E, args: Vec<WasmValue>) -> (res:
        Result<Vec<WasmValue>, X>) where E: Fn(&FuncRef, Vec<WasmValue>) -> Result<Vec<WasmValue>, X>

        requires
            call_requires(*engine, (&FuncRef { inner: bridge@.ctx_at(self@.cell) }, args)),
        ensures
            call_ensures(*engine, (&FuncRef { inner: bridge@.ctx_at(self@.cell) }, args), res),
    {
        let func_ref = self.as_ref(bridge);
        func_ref.call(engine, args)
    }

    /// Makes one more handle on the same context.
    pub fn retain<F, A>(&self, bridge: &mut Bridge<F, A>) -> (copy: Function)
        requires
            old(bridge)@.strong_at(self@.cell) < usize::MAX,
        ensures
            copy@ == self@,
            final(bridge)@ == old(bridge)@.retained(self@.cell),
    {
        bridge.retain(self.cell);
        Function { cell: self.cell, registered: self.registered, data_owner: self.data_owner }
    }

    /// The test for a release: what is wrong with releasing the handle
    /// now, if anything is. A fault is beyond repair, and
    /// [`Function::release`] does not take such a handle.
    pub fn release_fault<F, A>(&self, bridge: &Bridge<F, A>) -> (fault: Option<Fault>)
        ensures
            fault == self@.release_fault(bridge@),
    {
        let held = bridge.cell(self.cell);
        if !self.registered && held.strong == 1 && bridge.key_of(held.ctx).is_none() {
            Some(Fault::MissingFootprint { footprint: held.ctx })
        } else {
            None
        }
    }

    /// Releases the handle, and returns what the engine has to do then.
    ///
    /// The release of a handle that is not the last on its context, or
    /// that was found inside a module, changes nothing but the count of
    /// handles, and leaves the engine nothing to do. The release of the
    /// last handle that owns its context removes the footprint and the
    /// closure; the engine then frees the user data, if the function owns
    /// it, and deletes the context. A handle that the bridge does not
    /// know is released without any effect.
    ///
    /// The last handle that owns a context of which the footprint table
    /// knows nothing is no input: see [`Function::release_fault`].
    pub fn release<F, A>(self, bridge: &mut Bridge<F, A>) -> (steps: Vec<Step>)
        requires
            !self@.faults(old(bridge)@),
        ensures
            final(bridge)@ == self@.released(old(bridge)@),
            steps@ == self@.release_steps(old(bridge)@),
    {
        self.release_in(bridge)
    }

    /// Releases the handle in place, for an owner that lets go of many
    /// handles at once and forgets them afterwards.
    pub(crate) fn release_in<F, A>(&self, bridge: &mut Bridge<F, A>) -> (steps: Vec<Step>)
        requires
            !self@.faults(old(bridge)@),
        ensures
            final(bridge)@ == self@.released(old(bridge)@),
            steps@ == self@.release_steps(old(bridge)@),
    {
        let mut steps: Vec<Step> = Vec::new();
        let held = bridge.cell(self.cell);
        bridge.release(self.cell);
        if !self.registered && held.strong == 1 {
            let found = bridge.tear_down(held.ctx);
            if self.data_owner {
                steps.push(Step::FreeUserData(held.ctx));
            }
            if held.ctx != 0 {
                steps.push(Step::DeleteFunction(held.ctx));
            }
            proof {
                assert(found);
                assert(steps@ =~= teardown_steps(held.ctx, self.data_owner));
            }
        }
        steps
    }
}

/// A reference to a function: the address of its context, and nothing to
/// release.
#[derive(Clone, Copy, Debug, PartialEq, Eq, Structural)]
pub struct FuncRef {
    /// The address of the function context.
    pub inner: usize,
}

impl FuncRef {
    /// Wraps the engine's answer to the question for the type of the
    /// function referred to, as [`Function::ty`] does.
    pub fn ty(&self, ty_ctx: usize, params: Vec<ValType>, rets: Vec<ValType>) -> (res: Result<
        FuncType,
        WasmEdgeError,
    >)
        ensures
            FuncType::fits(ty_ctx, params@, rets@) ==> (res matches Ok(ty) && ty@ == (
            FuncTypeView { params: params@, rets: rets@, inner: ty_ctx, registered: true })),
            !FuncType::fits(ty_ctx, params@, rets@) ==> res matches Err(
                WasmEdgeError::Func(FuncError::Type),
            ),
    {
        FuncType::found(ty_ctx, params, rets)
    }

    /// Runs the function referred to on an engine. The engine is handed
    /// this reference and the arguments, and its answer is passed on.
    pub fn call<E, X>(&self, engine: &E, args: Vec<WasmValue>) -> (res: Result<Vec<WasmValue>, X>) where
        E: Fn(&FuncRef, Vec<WasmValue>) -> Result<Vec<WasmValue>, X>,

        requires
            call_requires(*engine, (self, args)),
        ensures
            call_ensures(*engine, (self, args), res),
    {
        engine(self, args)
    }
}

/// The type of a function: the types of its parameters and of the values
/// it returns, and the address of the engine's type context.
#[derive(Debug)]
pub struct FuncType {
    params: Vec<ValType>,
    rets: Vec<ValType>,
    inner: usize,
    registered: bool,
}

/// What a [`FuncType`] is, mathematically.
pub struct FuncTypeView {
    /// The parameter types, in order.
    pub params: Seq<ValType>,
    /// The types of the values returned, in order.
    pub rets: Seq<ValType>,
    /// The address of the engine's type context.
    pub inner: usize,
    /// The context belongs to a function: the engine deletes it.
    pub registered: bool,
}

impl View for FuncType {
    type V = FuncTypeView;

    closed spec fn view(&self) -> FuncTypeView {
        FuncTypeView {
            params: self.params@,
            rets: self.rets@,
            inner: self.inner,
            registered: self.registered,
        }
    }
}

/// The tags of a list of types, in order.
pub open spec fn tags_of(types: Seq<ValType>) -> Seq<u32> {
    Seq::new(types.len(), |i: int| types[i].tag())
}

/// A copy of a list of types.
fn copy_types(types: &Vec<ValType>) -> (copy: Vec<ValType>)
    ensures
        copy@ == types@,
{
    let mut copy: Vec<ValType> = Vec::new();
    let mut idx: usize = 0;
    while idx < types.len()
        invariant
            idx <= types.len(),
            copy@ == types@.take(idx as int),
        decreases types.len() - idx,
    {
        copy.push(types[idx]);
        proof {
            assert(copy@ =~= types@.take(idx + 1));
        }
        idx = idx + 1;
    }
    proof {
        assert(types@.take(types.len() as int) =~= types@);
    }
    copy
}

impl FuncType {
    /// A type context at this address can hold these lists: the address
    /// is not null, and the engine can count each list's length.
    pub open spec fn fits(ctx: usize, params: Seq<ValType>, rets: Seq<ValType>) -> bool {
        ctx != 0 && params.len() <= u32::MAX && rets.len() <= u32::MAX
    }

    /// The engine can count the lists of every function type.
    #[verifier::type_invariant]
    spec fn counted(&self) -> bool {
        self.params@.len() <= u32::MAX && self.rets@.len() <= u32::MAX
    }

    /// The tags of a list of types, as the engine takes them; `None`
    /// where the list is longer than the engine can count.
    pub fn encode(types: &Vec<ValType>) -> (tags: Option<Vec<u32>>)
        ensures
            types@.len() <= u32::MAX ==> (tags matches Some(t) && t@ == tags_of(types@)),
            types@.len() > u32::MAX ==> tags is None,
    {
        if types.len() > u32::MAX as usize {
            return None;
        }
        let mut tags: Vec<u32> = Vec::new();
        let mut idx: usize = 0;
        while idx < types.len()
            invariant
                idx <= types.len(),
                tags@.len() == idx,
                forall|i: int| 0 <= i < idx ==> tags@[i] == (#[trigger] types@[i]).tag(),
            decreases types.len() - idx,
        {
            tags.push(types[idx].to_tag());
            idx = idx + 1;
        }
        proof {
            assert(tags@ =~= tags_of(types@));
        }
        Some(tags)
    }

    /// Makes a function type of the given parameter and return types,
    /// after the engine was asked for a type context of their tags and
    /// answered `ctx`. The type owns the context.
    ///
    /// Fails where the engine made no context (`ctx` is null), and where
    /// a list is longer than the engine can count.
    pub fn create(args: Vec<ValType>, rets: Vec<ValType>, ctx: usize) -> (res: Result<
        FuncType,
        WasmEdgeError,
    >)
        ensures
            FuncType::fits(ctx, args@, rets@) ==> (res matches Ok(ty) && ty@ == (
            FuncTypeView { params: args@, rets: rets@, inner: ctx, registered: false })),
            !FuncType::fits(ctx, args@, rets@) ==> res matches Err(WasmEdgeError::FuncTypeCreate),
    {
        if ctx != 0 && args.len() <= u32::MAX as usize && rets.len() <= u32::MAX as usize {
            Ok(FuncType { params: args, rets, inner: ctx, registered: false })
        } else {
            Err(WasmEdgeError::FuncTypeCreate)
        }
    }

    /// Wraps a type context that belongs to a function.
    fn found(ty_ctx: usize, params: Vec<ValType>, rets: Vec<ValType>) -> (res: Result<
        FuncType,
        WasmEdgeError,
    >)
        ensures
            FuncType::fits(ty_ctx, params@, rets@) ==> (res matches Ok(ty) && ty@ == (
            FuncTypeView { params: params@, rets: rets@, inner: ty_ctx, registered: true })),
            !FuncType::fits(ty_ctx, params@, rets@) ==> res matches Err(
                WasmEdgeError::Func(FuncError::Type),
            ),
    {
        if ty_ctx != 0 && params.len() <= u32::MAX as usize && rets.len() <= u32::MAX as usize {
            Ok(FuncType { params, rets, inner: ty_ctx, registered: true })
        } else {
            Err(WasmEdgeError::Func(FuncError::Type))
        }
    }

    /// The number of parameters.
    pub fn params_len(&self) -> (len: u32)
        ensures
            len == self@.params.len(),
    {
        proof {
            use_type_invariant(self);
        }
        self.params.len() as u32
    }

    /// The parameter types, in order.
    pub fn params_type_iter(&self) -> (types: Vec<ValType>)
        ensures
            types@ == self@.params,
    {
        copy_types(&self.params)
    }

    /// The number of values returned.
    pub fn returns_len(&self) -> (len: u32)
        ensures
            len == self@.rets.len(),
    {
        proof {
            use_type_invariant(self);
        }
        self.rets.len() as u32
    }

    /// The types of the values returned, in order.
    pub fn returns_type_iter(&self) -> (types: Vec<ValType>)
        ensures
            types@ == self@.rets,
    {
        copy_types(&self.rets)
    }

    /// The address of the engine's type context.
    pub fn as_ptr(&self) -> (ctx: usize)
        ensures
            ctx == self@.inner,
    {
        self.inner
    }

    /// Whether the context belongs to a function.
    pub fn registered(&self) -> (registered: bool)
        ensures
            registered == self@.registered,
    {
        self.registered
    }

    /// Releases the type, and returns what the engine has to do then:
    /// delete the context, where the type owns it and its address is not
    /// null.
    pub fn release(self) -> (steps: Vec<Step>)
        ensures
            steps@ == (if !self@.registered && self@.inner != 0 {
                seq![Step::DeleteFuncType(self@.inner)]
            } else {
                Seq::<Step>::empty()
            }),
    {
        let mut steps: Vec<Step> = Vec::new();
        if !self.registered && self.inner != 0 {
            steps.push(Step::DeleteFuncType(self.inner));
        }
        steps
    }

    /// Makes a function type from lists that may be missing, where a
    /// missing list stands for an empty one. The engine was asked for a
    /// type context and answered `ctx`.
    pub fn from_parts(args: Option<Vec<ValType>>, rets: Option<Vec<ValType>>, ctx: usize) -> (ty:
        FuncType)
        requires
            FuncType::fits(ctx, list_of(args), list_of(rets)),
        ensures
            ty@ == (FuncTypeView {
                params: list_of(args),
                rets: list_of(rets),
                inner: ctx,
                registered: false,
            }),
    {
        let param_tys = match args {
            Some(args) => args,
            None => Vec::new(),
        };
        let ret_tys = match rets {
            Some(rets) => rets,
            None => Vec::new(),
        };
        FuncType { params: param_tys, rets: ret_tys, inner: ctx, registered: false }
    }

    /// Takes the type apart into its lists, where an empty list is left
    /// out, and what the engine has to do for the type's release.
    pub fn into_parts(self) -> (parts: (Option<Vec<ValType>>, Option<Vec<ValType>>, Vec<Step>))
        ensures
            parts.0 is Some <==> self@.params.len() > 0,
            parts.1 is Some <==> self@.rets.len() > 0,
            list_of(parts.0) == self@.params,
            list_of(parts.1) == self@.rets,
            parts.2@ == (if !self@.registered && self@.inner != 0 {
                seq![Step::DeleteFuncType(self@.inner)]
            } else {
                Seq::<Step>::empty()
            }),
    {
        let args = if self.params.len() > 0 {
            Some(copy_types(&self.params))
        } else {
            None
        };
        let rets = if self.rets.len() > 0 {
            Some(copy_types(&self.rets))
        } else {
            None
        };
        proof {
            if self.params.len() == 0 {
                assert(self@.params =~= Seq::<ValType>::empty());
            }
            if self.rets.len() == 0 {
                assert(self@.rets =~= Seq::<ValType>::empty());
            }
        }
        let steps = self.release();
        (args, rets, steps)
    }
}

/// The list that an optional list stands for: itself, or the empty list.
pub open spec fn list_of(types: Option<Vec<ValType>>) -> Seq<ValType> {
    match types {
        Some(types) => types@,
        None => Seq::empty(),
    }
}

} // verus!
