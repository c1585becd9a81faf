//! What a host closure reports, what the engine is answered, and the
//! errors of the bridge's own operations.

use vstd::prelude::*;

verus! {

/// The failure that a host closure reports.
#[derive(Clone, Copy, Debug, PartialEq, Eq, Structural)]
pub enum HostFuncError {
    /// A failure of the application, with a code of its choosing.
    User(u32),
    /// A failure of the engine's kind, with one of the engine's codes.
    Runtime(u32),
}

/// The category of a native result.
#[derive(Clone, Copy, Debug, PartialEq, Eq, Structural)]
pub enum ErrCategory {
    /// The engine's own category.
    Wasm,
    /// The category of failures that the application defines.
    UserLevel,
}

/// What the trampoline answers the engine: a category and a code.
#[derive(Clone, Copy, Debug, PartialEq, Eq, Structural)]
pub struct NativeResult {
    /// The category of the result.
    pub category: ErrCategory,
    /// The code within the category; 0 in the engine's category is success.
    pub code: u32,
}

/// The code that tells the engine that no host function stands behind a key.
pub const HOST_FUNC_NOT_FOUND: u32 = 5;

/// The code that tells the engine that driving an asynchronous host
/// function failed.
pub const ASYNC_DRIVER_FAILED: u32 = 0x07;

impl NativeResult {
    /// The successful result, in contracts.
    pub open spec fn spec_success() -> NativeResult {
        NativeResult { category: ErrCategory::Wasm, code: 0 }
    }

    /// The result that a host closure's failure translates to.
    pub open spec fn of_error(err: HostFuncError) -> NativeResult {
        match err {
            HostFuncError::User(code) => NativeResult { category: ErrCategory::UserLevel, code },
            HostFuncError::Runtime(code) => NativeResult { category: ErrCategory::Wasm, code },
        }
    }

    /// The result of a dispatch that found no closure, in contracts.
    pub open spec fn spec_not_found() -> NativeResult {
        NativeResult { category: ErrCategory::Wasm, code: HOST_FUNC_NOT_FOUND }
    }

    /// The successful result.
    pub fn success() -> (res: NativeResult)
        ensures
            res == NativeResult::spec_success(),
    {
        NativeResult { category: ErrCategory::Wasm, code: 0 }
    }

    /// A result of the given category and code.
    pub fn gen(category: ErrCategory, code: u32) -> (res: NativeResult)
        ensures
            res == (NativeResult { category, code }),
    {
        NativeResult { category, code }
    }

    /// Translates a host closure's failure.
    pub fn from_error(err: HostFuncError) -> (res: NativeResult)
        ensures
            res == NativeResult::of_error(err),
    {
        match err {
            HostFuncError::User(code) => NativeResult::gen(ErrCategory::UserLevel, code),
            HostFuncError::Runtime(code) => NativeResult::gen(ErrCategory::Wasm, code),
        }
    }

    /// The result of a dispatch that found no closure behind its key.
    pub fn not_found() -> (res: NativeResult)
        ensures
            res == NativeResult::spec_not_found(),
    {
        NativeResult::gen(ErrCategory::Wasm, HOST_FUNC_NOT_FOUND)
    }

    /// Whether this is the successful result.
    pub fn is_ok(&self) -> (ok: bool)
        ensures
            ok == (*self == NativeResult::spec_success()),
    {
        self.code == 0 && match self.category {
            ErrCategory::Wasm => true,
            ErrCategory::UserLevel => false,
        }
    }
}

/// A broken invariant, as a test of the bridge names it. Nothing can be
/// done about one but to stop: no operation takes an input with a fault,
/// and whoever is told of a fault by a test aborts.
#[derive(Clone, Copy, Debug, PartialEq, Eq, Structural)]
pub enum Fault {
    /// A host closure returned another number of values than its type
    /// declares.
    ReturnCount {
        /// The number of return slots.
        expected: usize,
        /// The number of values returned.
        actual: usize,
    },
    /// A slot of the argument buffer carries a tag that names no type.
    UnknownValType {
        /// The index of the slot.
        slot: usize,
        /// The tag found there.
        tag: u32,
    },
    /// A function that owns its context was torn down, and the footprint
    /// table did not know the context.
    MissingFootprint {
        /// The address of the context.
        footprint: usize,
    },
}

/// The errors of function handles.
#[derive(Clone, Copy, Debug, PartialEq, Eq, Structural)]
pub enum FuncError {
    /// The engine made no function context.
    Create,
    /// The engine knows no type for the function.
    Type,
}

/// The errors of module instances.
#[derive(Clone, Debug, PartialEq, Eq)]
pub enum InstanceError {
    /// The engine made no module instance.
    CreateImportModule,
    /// The module exports no function of this name.
    NotFoundFunc(String),
    /// The module exports no table of this name.
    NotFoundTable(String),
    /// The module exports no memory of this name.
    NotFoundMem(String),
    /// The module exports no global of this name.
    NotFoundGlobal(String),
    /// No native handler is mapped to the descriptor.
    NotFoundMappedFdHandler,
}

/// The errors of tables.
#[derive(Clone, Copy, Debug, PartialEq, Eq, Structural)]
pub enum TableError {
    /// The engine made no table.
    Create,
}

/// The errors of memories.
#[derive(Clone, Copy, Debug, PartialEq, Eq, Structural)]
pub enum MemError {
    /// The engine made no memory.
    Create,
}

/// The errors of globals.
#[derive(Clone, Copy, Debug, PartialEq, Eq, Structural)]
pub enum GlobalError {
    /// The engine made no global.
    Create,
}

/// The errors of the bridge's operations.
#[derive(Clone, Debug, PartialEq, Eq)]
pub enum WasmEdgeError {
    /// A function handle's error.
    Func(FuncError),
    /// The engine made no function type.
    FuncTypeCreate,
    /// A table's error.
    Table(TableError),
    /// A memory's error.
    Mem(MemError),
    /// A global's error.
    Global(GlobalError),
    /// A module instance's error.
    Instance(InstanceError),
    /// The engine made no import object.
    ImportObjCreate,
    /// The engine failed at what it was asked for, under this code.
    Core(u32),
}

} // verus!
