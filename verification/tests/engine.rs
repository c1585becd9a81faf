//! The bridge at work against a stand-in for the engine: a table of
//! contexts that hands out addresses and does what the steps say.

use hostfn_bridge::bridge::{Bridge, Step};
use hostfn_bridge::error::{
    ErrCategory, FuncError, HostFuncError, InstanceError, NativeResult, WasmEdgeError,
};
use hostfn_bridge::function::{FuncRef, FuncType, Function};
use hostfn_bridge::module::{
    AsImport, AsInstance, Global, ImportModule, ImportObject, Instance, Memory, Table, WasiModule,
};
use hostfn_bridge::trampoline::{decode_args, finish, returns_fault};
use hostfn_bridge::value::{CallingFrame, RawValue, ValType, WasmValue};
use std::collections::HashMap;

type BoxedFn = Box<
    dyn Fn(CallingFrame, Vec<WasmValue>, usize) -> Result<Vec<WasmValue>, HostFuncError>
        + Send
        + Sync,
>;

type Tables = Bridge<BoxedFn, ()>;

struct FuncCtx {
    key: usize,
    data: usize,
    params: Vec<ValType>,
    rets: Vec<ValType>,
}

#[derive(Default)]
struct ModuleCtx {
    name: String,
    host_data: usize,
    funcs: Vec<(String, usize)>,
    tables: Vec<(String, usize)>,
    memories: Vec<(String, usize)>,
    globals: Vec<(String, usize)>,
}

#[derive(Default)]
struct Engine {
    next: usize,
    types: HashMap<usize, (Vec<u32>, Vec<u32>)>,
    funcs: HashMap<usize, FuncCtx>,
    modules: HashMap<usize, ModuleCtx>,
    store: HashMap<String, usize>,
    freed: Vec<usize>,
}

impl Engine {
    fn fresh(&mut self) -> usize {
        self.next += 0x10;
        self.next
    }

    fn func_type(&mut self, args: Vec<ValType>, rets: Vec<ValType>) -> Result<FuncType, WasmEdgeError> {
        let ctx = match (FuncType::encode(&args), FuncType::encode(&rets)) {
            (Some(arg_tags), Some(ret_tags)) => {
                let ctx = self.fresh();
                self.types.insert(ctx, (arg_tags, ret_tags));
                ctx
            }
            _ => 0,
        };
        FuncType::create(args, rets, ctx)
    }

    fn bind(&mut self, ty: &FuncType, key: usize, data: usize) -> usize {
        let ctx = self.fresh();
        self.funcs.insert(
            ctx,
            FuncCtx {
                key,
                data,
                params: ty.params_type_iter(),
                rets: ty.returns_type_iter(),
            },
        );
        ctx
    }

    fn host_func(
        &mut self,
        bridge: &mut Tables,
        ty: &FuncType,
        real_fn: BoxedFn,
        data: Option<usize>,
    ) -> Result<Function, WasmEdgeError> {
        let (ptr, _) = Function::user_data(data);
        let key = bridge.register(real_fn);
        let ctx = self.bind(ty, key, ptr);
        Function::create_sync_func(bridge, key, ctx, data)
    }

    fn type_of(&self, func: usize) -> (usize, Vec<ValType>, Vec<ValType>) {
        match self.funcs.get(&func) {
            Some(f) => (func + 1, f.params.clone(), f.rets.clone()),
            None => (0, vec![], vec![]),
        }
    }

    fn module(&mut self, name: &str, host_data: Option<usize>) -> usize {
        let ctx = self.fresh();
        let host_data = host_data.unwrap_or(0);
        self.modules.insert(ctx, ModuleCtx { name: name.to_string(), host_data, ..Default::default() });
        ctx
    }

    fn perform(&mut self, name: &str, step: Step) {
        match step {
            Step::FreeUserData(func) => {
                let data = self.funcs[&func].data;
                self.freed.push(data);
            }
            Step::DeleteFunction(func) => {
                assert!(self.funcs.remove(&func).is_some());
            }
            Step::DeleteFuncType(ty) => {
                assert!(self.types.remove(&ty).is_some());
            }
            Step::DeleteModule(module) => {
                let gone = self.modules.remove(&module).unwrap();
                self.store.retain(|_, ctx| *ctx != module);
                drop(gone);
            }
            Step::AddFunction { module, func } => {
                self.modules.get_mut(&module).unwrap().funcs.push((name.to_string(), func));
            }
            Step::AddTable { module, table } => {
                self.modules.get_mut(&module).unwrap().tables.push((name.to_string(), table));
            }
            Step::AddMemory { module, memory } => {
                self.modules.get_mut(&module).unwrap().memories.push((name.to_string(), memory));
            }
            Step::AddGlobal { module, global } => {
                self.modules.get_mut(&module).unwrap().globals.push((name.to_string(), global));
            }
        }
    }

    fn perform_all(&mut self, steps: Vec<Step>) {
        for step in steps {
            self.perform("", step);
        }
    }

    fn register_import(&mut self, import: &ImportModule, bridge: &Tables) {
        self.store.insert(import.name().to_string(), import.as_ptr(bridge));
    }

    fn store_module(&self, bridge: &mut Tables, name: &str) -> Result<Instance, String> {
        match self.store.get(name) {
            Some(ctx) => Ok(Instance::create(bridge, *ctx, true)),
            None => Err(format!("no module named {name}")),
        }
    }

    fn find(list: &[(String, usize)], name: &str) -> usize {
        list.iter().find(|(n, _)| n == name).map(|(_, ctx)| *ctx).unwrap_or(0)
    }

    fn names(list: &[(String, usize)]) -> Vec<String> {
        list.iter().map(|(n, _)| n.clone()).collect()
    }

    fn run(&self, bridge: &Tables, func: &FuncRef, args: Vec<WasmValue>) -> Result<Vec<WasmValue>, NativeResult> {
        let ctx = &self.funcs[&func.inner];
        let params: Vec<RawValue> = args.iter().map(|v| v.as_raw()).collect();
        let mut rets = vec![RawValue { value: 0, ty: 0 }; ctx.rets.len()];
        let args = match decode_args(&params) {
            Ok(args) => args,
            Err(fault) => panic!("{:?}", fault),
        };
        let res = match bridge.lookup(ctx.key) {
            None => NativeResult::not_found(),
            Some(real_fn) => {
                let result = real_fn(CallingFrame::create(0), args, ctx.data);
                if let Some(fault) = returns_fault(&result, rets.len()) {
                    panic!("{:?}", fault);
                }
                finish(result, &mut rets)
            }
        };
        if res.is_ok() {
            Ok(rets.into_iter().map(|r| WasmValue::from_raw(r).unwrap()).collect())
        } else {
            Err(res)
        }
    }
}

fn real_add(
    _frame: CallingFrame,
    input: Vec<WasmValue>,
    _data: usize,
) -> Result<Vec<WasmValue>, HostFuncError> {
    if input.len() != 2 {
        return Err(HostFuncError::User(1));
    }
    let a = if input[0].ty() == ValType::I32 {
        input[0].to_i32()
    } else {
        return Err(HostFuncError::User(2));
    };
    let b = if input[1].ty() == ValType::I32 {
        input[1].to_i32()
    } else {
        return Err(HostFuncError::User(3));
    };
    Ok(vec![WasmValue::from_i32(a + b)])
}

#[test]
fn test_func_type() {
    let mut engine = Engine::default();
    // with args and returns
    {
        let param_tys = vec![
            ValType::I32,
            ValType::I64,
            ValType::F32,
            ValType::F64,
            ValType::V128,
            ValType::ExternRef,
        ];
        let param_len = param_tys.len();
        let ret_tys = vec![ValType::FuncRef, ValType::ExternRef, ValType::V128];
        let ret_len = ret_tys.len();

        let result = engine.func_type(param_tys, ret_tys);
        assert!(result.is_ok());
        let func_ty = result.unwrap();

        assert_eq!(func_ty.params_len(), param_len as u32);
        let param_tys = func_ty.params_type_iter();
        assert_eq!(
            param_tys,
            vec![
                ValType::I32,
                ValType::I64,
                ValType::F32,
                ValType::F64,
                ValType::V128,
                ValType::ExternRef,
            ]
        );

        assert_eq!(func_ty.returns_len(), ret_len as u32);
        let return_tys = func_ty.returns_type_iter();
        assert_eq!(return_tys, vec![ValType::FuncRef, ValType::ExternRef, ValType::V128]);

        // what the engine was handed
        let (arg_tags, ret_tags) = &engine.types[&func_ty.as_ptr()];
        assert_eq!(arg_tags, &vec![0x7F, 0x7E, 0x7D, 0x7C, 0x7B, 0x6F]);
        assert_eq!(ret_tags, &vec![0x70, 0x6F, 0x7B]);
    }

    // without args and returns
    {
        let result = engine.func_type(vec![], vec![]);
        assert!(result.is_ok());
        let func_ty = result.unwrap();

        assert_eq!(func_ty.params_len(), 0);
        assert_eq!(func_ty.returns_len(), 0);
    }
}

#[test]
fn func_type_without_context_fails() {
    let result = FuncType::create(vec![ValType::I32], vec![], 0);
    assert_eq!(result.err(), Some(WasmEdgeError::FuncTypeCreate));
}

#[test]
fn func_type_release_deletes_what_it_owns() {
    let mut engine = Engine::default();
    let ty = engine.func_type(vec![ValType::I32], vec![]).unwrap();
    let ctx = ty.as_ptr();
    assert!(!ty.registered());
    assert_eq!(ty.release(), vec![Step::DeleteFuncType(ctx)]);

    let mut bridge = Tables::new();
    let ty = engine.func_type(vec![ValType::I32; 2], vec![ValType::I32]).unwrap();
    let func = engine.host_func(&mut bridge, &ty, Box::new(real_add), None).unwrap();
    let (ty_ctx, params, rets) = engine.type_of(func.as_ptr(&bridge));
    let found = func.ty(ty_ctx, params, rets).unwrap();
    assert!(found.registered());
    assert_eq!(found.release(), vec![]);
}

#[test]
fn func_type_parts() {
    let ty = FuncType::from_parts(Some(vec![ValType::I32, ValType::F64]), None, 0x40);
    assert_eq!(ty.params_len(), 2);
    assert_eq!(ty.returns_len(), 0);
    assert_eq!(ty.as_ptr(), 0x40);
    let (args, rets, steps) = ty.into_parts();
    assert_eq!(args, Some(vec![ValType::I32, ValType::F64]));
    assert_eq!(rets, None);
    assert_eq!(steps, vec![Step::DeleteFuncType(0x40)]);

    let ty = FuncType::from_parts(None, Some(vec![ValType::V128]), 0x50);
    let (args, rets, _) = ty.into_parts();
    assert_eq!(args, None);
    assert_eq!(rets, Some(vec![ValType::V128]));
}

#[test]
fn test_func_basic() {
    let data: usize = 12;

    fn real_add_with_data(
        _frame: CallingFrame,
        input: Vec<WasmValue>,
        data: usize,
    ) -> Result<Vec<WasmValue>, HostFuncError> {
        assert_eq!(data, 12);
        real_add(_frame, input, data)
    }

    let mut engine = Engine::default();
    let mut bridge = Tables::new();

    assert_eq!(bridge.host_funcs_len(), 0);
    assert_eq!(bridge.footprints_len(), 0);

    let result = engine.func_type(vec![ValType::I32; 2], vec![ValType::I32]);
    assert!(result.is_ok());
    let func_ty = result.unwrap();
    let result = engine.host_func(&mut bridge, &func_ty, Box::new(real_add_with_data), Some(data));
    assert!(result.is_ok());
    let host_func = result.unwrap();
    assert!(host_func.data_owner());

    // get func type
    let (ty_ctx, params, rets) = engine.type_of(host_func.as_ptr(&bridge));
    let result = host_func.ty(ty_ctx, params, rets);
    assert!(result.is_ok());
    let ty = result.unwrap();

    assert_eq!(ty.params_len(), 2);
    assert_eq!(ty.params_type_iter(), vec![ValType::I32; 2]);
    assert_eq!(ty.returns_len(), 1);
    assert_eq!(ty.returns_type_iter(), vec![ValType::I32]);

    // run this function
    let result = host_func.call(
        &bridge,
        &|f: &FuncRef, args: Vec<WasmValue>| engine.run(&bridge, f, args),
        vec![WasmValue::from_i32(1), WasmValue::from_i32(2)],
    );
    assert!(result.is_ok());
    let returns = result.unwrap();
    assert_eq!(returns[0].to_i32(), 3);
}

#[test]
fn call_passes_the_engines_answer_on() {
    let mut engine = Engine::default();
    let mut bridge = Tables::new();
    let ty = engine.func_type(vec![ValType::I32; 2], vec![ValType::I32]).unwrap();
    let func = engine.host_func(&mut bridge, &ty, Box::new(real_add), None).unwrap();
    let ctx = func.as_ptr(&bridge);
    let run = |f: &FuncRef, args: Vec<WasmValue>| {
        assert_eq!(f.inner, ctx);
        engine.run(&bridge, f, args)
    };
    // a wrong number of arguments: the closure's own failure comes back
    let result = func.call(&bridge, &run, vec![WasmValue::from_i32(1)]);
    assert_eq!(result, Err(NativeResult { category: ErrCategory::UserLevel, code: 1 }));
    let result = func.call(&bridge, &run, vec![WasmValue::from_i64(1), WasmValue::from_i32(1)]);
    assert_eq!(result, Err(NativeResult { category: ErrCategory::UserLevel, code: 2 }));
    let result = func
        .as_ref(&bridge)
        .call(&run, vec![WasmValue::from_i32(20), WasmValue::from_i32(22)]);
    assert_eq!(result, Ok(vec![WasmValue::from_i32(42)]));
}

#[test]
fn function_type_unknown_to_engine() {
    let mut bridge = Tables::new();
    let func = Function::found(&mut bridge, 0x99);
    let result = func.ty(0, vec![], vec![]);
    assert_eq!(result.err(), Some(WasmEdgeError::Func(FuncError::Type)));
    let result = func.as_ref(&bridge).ty(0, vec![], vec![]);
    assert_eq!(result.err(), Some(WasmEdgeError::Func(FuncError::Type)));
}

#[test]
fn create_fails_without_context() {
    let mut bridge = Tables::new();
    let key = bridge.register(Box::new(real_add));
    assert_eq!(bridge.host_funcs_len(), 1);
    let result = Function::create_sync_func(&mut bridge, key, 0, None);
    assert_eq!(result.err(), Some(WasmEdgeError::Func(FuncError::Create)));
    // the closure that waited for the context is withdrawn
    assert_eq!(bridge.host_funcs_len(), 0);
    assert_eq!(bridge.footprints_len(), 0);
    assert!(!bridge.contains(key));
}

#[test]
fn create_fails_on_a_key_of_the_other_kind() {
    let mut bridge: Bridge<BoxedFn, u8> = Bridge::new();
    let key = bridge.register_async(7);
    assert_eq!(bridge.async_host_funcs_len(), 1);
    let result = Function::create_sync_func(&mut bridge, key, 0x10, None);
    assert_eq!(result.err(), Some(WasmEdgeError::Func(FuncError::Create)));
    assert_eq!(bridge.async_host_funcs_len(), 0);

    let key = bridge.register_async(8);
    let func = Function::create_async_func(&mut bridge, key, 0x10, Some(3)).unwrap();
    assert!(func.data_owner());
    assert_eq!(bridge.async_host_funcs_len(), 1);
    assert_eq!(bridge.host_funcs_len(), 0);
    assert_eq!(bridge.footprints_len(), 1);
    assert_eq!(bridge.lookup_async(key), Some(&8));
    assert_eq!(func.release(&mut bridge), vec![Step::FreeUserData(0x10), Step::DeleteFunction(0x10)]);
    assert_eq!(bridge.async_host_funcs_len(), 0);
    assert_eq!(bridge.footprints_len(), 0);
}

#[test]
fn create_fails_on_a_context_with_a_footprint() {
    let mut bridge = Tables::new();
    let first = bridge.register(Box::new(real_add));
    let func = Function::create_sync_func(&mut bridge, first, 0x10, None).unwrap();
    let second = bridge.register(Box::new(real_add));
    let result = Function::create_with_data(&mut bridge, second, 0x10, false);
    assert_eq!(result.err(), Some(WasmEdgeError::Func(FuncError::Create)));
    assert_eq!(bridge.host_funcs_len(), 1);
    assert_eq!(bridge.key_of(0x10), Some(first));
    // nor can a key be given a second context
    let result = Function::create_with_data(&mut bridge, first, 0x20, false);
    assert_eq!(result.err(), Some(WasmEdgeError::Func(FuncError::Create)));
    assert_eq!(bridge.host_funcs_len(), 1);
    assert_eq!(func.strong_count(&bridge), 1);
}

#[test]
fn custom_wrapper_function_has_no_footprint() {
    let mut bridge = Tables::new();
    let result = Function::create_with_custom_wrapper(&mut bridge, 0, true);
    assert_eq!(result.err(), Some(WasmEdgeError::Func(FuncError::Create)));
    let func = Function::create_with_custom_wrapper(&mut bridge, 0x30, true).unwrap();
    assert!(!func.registered());
    assert!(func.data_owner());
    assert_eq!(bridge.footprints_len(), 0);
    let copy = func.retain(&mut bridge);
    assert_eq!(copy.release_fault(&bridge), None);
    assert_eq!(copy.release(&mut bridge), vec![]);
    // the last release would find no footprint: a fault
    assert_eq!(
        func.release_fault(&bridge),
        Some(hostfn_bridge::error::Fault::MissingFootprint { footprint: 0x30 })
    );
}

#[test]
fn test_func_closure() {
    let mut engine = Engine::default();
    let mut bridge = Tables::new();
    {
        let real_add = |_: CallingFrame,
                        input: Vec<WasmValue>,
                        _: usize|
         -> Result<Vec<WasmValue>, HostFuncError> {
            if input.len() != 2 {
                return Err(HostFuncError::User(1));
            }
            let a = if input[0].ty() == ValType::I32 {
                input[0].to_i32()
            } else {
                return Err(HostFuncError::User(2));
            };
            let b = if input[1].ty() == ValType::I32 {
                input[1].to_i32()
            } else {
                return Err(HostFuncError::User(3));
            };
            Ok(vec![WasmValue::from_i32(a + b)])
        };

        let result = engine.func_type(vec![ValType::I32; 2], vec![ValType::I32]);
        assert!(result.is_ok());
        let func_ty = result.unwrap();

        let result = engine.host_func(&mut bridge, &func_ty, Box::new(real_add), None);
        assert!(result.is_ok());
        let host_func = result.unwrap();

        // create an ImportModule
        let ctx = engine.module("extern", None);
        let mut import = ImportModule::create(&mut bridge, "extern", None, ctx).unwrap();
        let step = import.add_func(&bridge, host_func);
        engine.perform("add", step);

        engine.register_import(&import, &bridge);

        let extern_instance = engine.store_module(&mut bridge, "extern").unwrap();
        let found = Engine::find(&engine.modules[&extern_instance.as_ptr(&bridge)].funcs, "add");
        let add = extern_instance.get_func(&mut bridge, "add", found).unwrap();

        let result =
            engine.run(&bridge, &add.as_ref(&bridge), vec![WasmValue::from_i32(1), WasmValue::from_i32(2)]);
        assert!(result.is_ok());
        let returns = result.unwrap();
        assert_eq!(returns[0].to_i32(), 3);

        // leaving the scope
        engine.perform_all(add.release(&mut bridge));
        engine.perform_all(extern_instance.release(&mut bridge));
        engine.perform_all(import.release(&mut bridge));
        engine.perform_all(func_ty.release());
    }

    assert_eq!(bridge.host_funcs_len(), 0);
    assert_eq!(bridge.footprints_len(), 0);
    assert!(engine.funcs.is_empty());
    assert!(engine.modules.is_empty());
    assert!(engine.types.is_empty());
}

#[test]
fn test_func_drop_v1() {
    let mut engine = Engine::default();
    let mut bridge = Tables::new();

    let result = engine.func_type(vec![ValType::I32; 2], vec![ValType::I32]);
    assert!(result.is_ok());
    let func_ty = result.unwrap();

    let result = engine.host_func(&mut bridge, &func_ty, Box::new(real_add), None);
    assert!(result.is_ok());
    let host_func = result.unwrap();

    assert_eq!(host_func.strong_count(&bridge), 1);
    assert!(!host_func.registered());

    assert_eq!(bridge.host_funcs_len(), 1);
    assert_eq!(bridge.footprints_len(), 1);

    // clone the host function before adding it to the import object
    let host_func_cloned = host_func.retain(&mut bridge);

    assert_eq!(host_func_cloned.strong_count(&bridge), 2);
    assert!(!host_func_cloned.registered());

    assert_eq!(bridge.host_funcs_len(), 1);
    assert_eq!(bridge.footprints_len(), 1);

    // create an ImportModule
    let ctx = engine.module("extern", None);
    let mut import = ImportModule::create(&mut bridge, "extern", None, ctx).unwrap();
    // add the host function to the import module
    let step = import.add_func(&bridge, host_func);
    engine.perform("add", step);

    assert_eq!(host_func_cloned.strong_count(&bridge), 2);
    assert!(!host_func_cloned.registered());

    assert_eq!(bridge.host_funcs_len(), 1);
    assert_eq!(bridge.footprints_len(), 1);

    assert_eq!(host_func_cloned.release(&mut bridge), vec![]);

    assert_eq!(bridge.host_funcs_len(), 1);
    assert_eq!(bridge.footprints_len(), 1);

    engine.register_import(&import, &bridge);

    // get the registered host function
    let extern_instance = engine.store_module(&mut bridge, "extern").unwrap();
    let found = Engine::find(&engine.modules[&extern_instance.as_ptr(&bridge)].funcs, "add");
    let add = extern_instance.get_func(&mut bridge, "add", found).unwrap();
    assert_eq!(add.strong_count(&bridge), 1);
    assert!(add.registered());

    assert_eq!(bridge.host_funcs_len(), 1);
    assert_eq!(bridge.footprints_len(), 1);

    // clone the host function
    let add_cloned = add.retain(&mut bridge);
    assert_eq!(add.strong_count(&bridge), 2);
    assert!(add.registered());
    assert_eq!(add_cloned.strong_count(&bridge), 2);
    assert!(add_cloned.registered());

    assert_eq!(bridge.host_funcs_len(), 1);
    assert_eq!(bridge.footprints_len(), 1);

    // drop the cloned host function
    assert_eq!(add_cloned.release(&mut bridge), vec![]);
    assert_eq!(add.strong_count(&bridge), 1);
    assert!(add.registered());

    assert_eq!(bridge.host_funcs_len(), 1);
    assert_eq!(bridge.footprints_len(), 1);

    assert_eq!(add.release(&mut bridge), vec![]);

    assert_eq!(bridge.host_funcs_len(), 1);
    assert_eq!(bridge.footprints_len(), 1);

    // get the registered host function again
    let found = Engine::find(&engine.modules[&extern_instance.as_ptr(&bridge)].funcs, "add");
    let add_again = extern_instance.get_func(&mut bridge, "add", found).unwrap();
    assert_eq!(add_again.strong_count(&bridge), 1);
    assert!(add_again.registered());

    assert_eq!(bridge.host_funcs_len(), 1);
    assert_eq!(bridge.footprints_len(), 1);

    assert_eq!(add_again.release(&mut bridge), vec![]);

    assert_eq!(bridge.host_funcs_len(), 1);
    assert_eq!(bridge.footprints_len(), 1);

    // drop the import object
    let module_ctx = import.as_ptr(&bridge);
    let steps = import.release(&mut bridge);
    assert_eq!(steps, vec![Step::DeleteModule(module_ctx), Step::DeleteFunction(found)]);
    engine.perform_all(steps);

    assert!(engine.store_module(&mut bridge, "extern").is_err());

    assert_eq!(bridge.host_funcs_len(), 0);
    assert_eq!(bridge.footprints_len(), 0);
}

#[test]
fn test_func_drop_v2() {
    let data: usize = 12;
    let mut engine = Engine::default();
    let mut bridge = Tables::new();

    assert_eq!(bridge.host_funcs_len(), 0);
    assert_eq!(bridge.footprints_len(), 0);

    let result = engine.func_type(vec![ValType::I32; 2], vec![ValType::I32]);
    assert!(result.is_ok());
    let func_ty = result.unwrap();
    let result = engine.host_func(&mut bridge, &func_ty, Box::new(real_add), Some(data));
    assert!(result.is_ok());
    let host_func = result.unwrap();
    let ctx = host_func.as_ptr(&bridge);

    let host_func_cloned = host_func.retain(&mut bridge);

    let steps = host_func.release(&mut bridge);
    assert_eq!(steps, vec![]);
    assert_eq!(bridge.host_funcs_len(), 1);

    let steps = host_func_cloned.release(&mut bridge);
    assert_eq!(steps, vec![Step::FreeUserData(ctx), Step::DeleteFunction(ctx)]);
    engine.perform_all(steps);
    assert_eq!(engine.freed, vec![12]);
    assert_eq!(bridge.host_funcs_len(), 0);
    assert_eq!(bridge.footprints_len(), 0);
}

#[test]
fn three_handles_tear_down_once() {
    let mut bridge = Tables::new();
    let key = bridge.register(Box::new(real_add));
    let first = Function::create_sync_func(&mut bridge, key, 0x10, None).unwrap();
    assert_eq!(bridge.host_funcs_len(), 1);
    let second = first.retain(&mut bridge);
    let third = first.retain(&mut bridge);
    assert_eq!(first.strong_count(&bridge), 3);
    assert_eq!(second.release(&mut bridge), vec![]);
    assert_eq!(third.release(&mut bridge), vec![]);
    assert_eq!(bridge.host_funcs_len(), 1);
    assert_eq!(bridge.footprints_len(), 1);
    assert!(bridge.lookup(key).is_some());
    assert_eq!(first.release(&mut bridge), vec![Step::DeleteFunction(0x10)]);
    assert_eq!(bridge.host_funcs_len(), 0);
    assert_eq!(bridge.footprints_len(), 0);
    assert!(bridge.lookup(key).is_none());
    // the cell is free again, and the next handle takes it
    let key = bridge.register(Box::new(real_add));
    let next = Function::create_sync_func(&mut bridge, key, 0x20, None).unwrap();
    assert_eq!(bridge.cells_len(), 1);
    assert_eq!(next.as_ptr(&bridge), 0x20);
}

#[test]
fn found_handle_never_tears_down() {
    let mut bridge = Tables::new();
    let key = bridge.register(Box::new(real_add));
    let owner = Function::create_sync_func(&mut bridge, key, 0x10, Some(5)).unwrap();
    let found = Function::found(&mut bridge, 0x10);
    assert_eq!(found.strong_count(&bridge), 1);
    assert_eq!(found.release(&mut bridge), vec![]);
    assert_eq!(bridge.host_funcs_len(), 1);
    assert_eq!(bridge.footprints_len(), 1);
    assert_eq!(owner.strong_count(&bridge), 1);
    assert_eq!(
        owner.release(&mut bridge),
        vec![Step::FreeUserData(0x10), Step::DeleteFunction(0x10)]
    );
    assert_eq!(bridge.host_funcs_len(), 0);
}

#[test]
fn test_instance_add_instance() {
    let mut engine = Engine::default();
    let mut bridge = Tables::new();
    assert_eq!(bridge.host_funcs_len(), 0);
    assert_eq!(bridge.footprints_len(), 0);

    let host_name = "extern";

    // create an import module
    let ctx = engine.module(host_name, None);
    let result = ImportModule::create(&mut bridge, host_name, None, ctx);
    assert!(result.is_ok());
    let mut import = result.unwrap();

    // create a host function
    let result = engine.func_type(vec![ValType::ExternRef, ValType::I32], vec![ValType::I32]);
    assert!(result.is_ok());
    let func_ty = result.unwrap();

    assert_eq!(bridge.host_funcs_len(), 0);
    assert_eq!(bridge.footprints_len(), 0);

    // add the host function
    let key = bridge.register(Box::new(real_add));
    let func = engine.bind(&func_ty, key, import.host_data_ptr());
    let result = import.add_func_new(&mut bridge, key, func);
    assert!(result.is_ok());
    engine.perform("func-add", result.unwrap());

    assert_eq!(bridge.host_funcs_len(), 1);
    assert_eq!(bridge.footprints_len(), 1);

    // add the table
    let table = engine.fresh();
    let result = import.add_table_new(&bridge, table);
    assert!(result.is_ok());
    engine.perform("table", result.unwrap());

    // add the memory
    let memory = engine.fresh();
    let result = import.add_memory_new(&bridge, memory);
    assert!(result.is_ok());
    engine.perform("memory", result.unwrap());

    // add the global
    let global = engine.fresh();
    let result = import.add_global_new(&bridge, global);
    assert!(result.is_ok());
    engine.perform("global_i32", result.unwrap());

    let module = &engine.modules[&ctx];
    assert_eq!(module.funcs, vec![("func-add".to_string(), func)]);
    assert_eq!(module.tables, vec![("table".to_string(), table)]);
    assert_eq!(module.memories, vec![("memory".to_string(), memory)]);
    assert_eq!(module.globals, vec![("global_i32".to_string(), global)]);
}

#[test]
fn add_fails_where_the_engine_made_nothing() {
    let mut engine = Engine::default();
    let mut bridge = Tables::new();
    let result = ImportModule::create(&mut bridge, "extern", None, 0);
    assert_eq!(
        result.err(),
        Some(WasmEdgeError::Instance(InstanceError::CreateImportModule))
    );
    let ctx = engine.module("extern", None);
    let mut import = ImportModule::create(&mut bridge, "extern", None, ctx).unwrap();
    let key = bridge.register(Box::new(real_add));
    assert_eq!(
        import.add_func_new(&mut bridge, key, 0).err(),
        Some(WasmEdgeError::Func(FuncError::Create))
    );
    assert_eq!(import.funcs_len(), 0);
    assert_eq!(bridge.host_funcs_len(), 0);
    assert_eq!(
        import.add_table_new(&bridge, 0).err(),
        Some(WasmEdgeError::Table(hostfn_bridge::error::TableError::Create))
    );
    assert_eq!(
        import.add_table_with_data(&bridge, 0, Ok(())).err(),
        Some(WasmEdgeError::Table(hostfn_bridge::error::TableError::Create))
    );
    assert_eq!(
        import.add_table_with_data(&bridge, 0x70, Err(7)).err(),
        Some(WasmEdgeError::Core(7))
    );
    assert_eq!(
        import.add_table_with_data(&bridge, 0x70, Ok(())),
        Ok(Step::AddTable { module: ctx, table: 0x70 })
    );
    assert_eq!(
        import.add_memory_new(&bridge, 0).err(),
        Some(WasmEdgeError::Mem(hostfn_bridge::error::MemError::Create))
    );
    assert_eq!(
        import.add_global_new(&bridge, 0).err(),
        Some(WasmEdgeError::Global(hostfn_bridge::error::GlobalError::Create))
    );
    let mut wide: Bridge<BoxedFn, u8> = Bridge::new();
    let mut import = ImportModule::create(&mut wide, "extern", Some(0x77), 0x100).unwrap();
    assert_eq!(import.host_data_ptr(), 0x77);
    let key = wide.register_async(1);
    assert_eq!(
        import.add_async_func(&mut wide, key, 0x200),
        Ok(Step::AddFunction { module: 0x100, func: 0x200 })
    );
    assert_eq!(wide.async_host_funcs_len(), 1);
    assert_eq!(import.funcs_len(), 1);
}

fn extern_module(engine: &mut Engine, bridge: &mut Tables, name: &str) -> ImportModule {
    let ctx = engine.module(name, None);
    let mut import = ImportModule::create(bridge, name, None, ctx).unwrap();

    let func_ty = engine.func_type(vec![ValType::I32; 2], vec![ValType::I32]).unwrap();
    let key = bridge.register(Box::new(real_add));
    let func = engine.bind(&func_ty, key, import.host_data_ptr());
    let step = import.add_func_new(bridge, key, func).unwrap();
    engine.perform("add", step);

    let table = engine.fresh();
    let step = import.add_table_new(bridge, table).unwrap();
    engine.perform("table", step);

    let memory = engine.fresh();
    let step = import.add_memory_new(bridge, memory).unwrap();
    engine.perform("mem", step);

    let global = engine.fresh();
    let step = import.add_global_new(bridge, global).unwrap();
    engine.perform("global", step);

    import
}

#[test]
fn test_instance_find_xxx() {
    let mut engine = Engine::default();
    let mut bridge = Tables::new();
    let module_name = "extern_module";
    let import = extern_module(&mut engine, &mut bridge, module_name);

    let import_obj = ImportObject::Import(import);
    assert_eq!(import_obj.name(), "extern_module");
    let ctx = import_obj.as_raw_ptr(&bridge);
    engine.store.insert(import_obj.name().to_string(), ctx);

    // get the module named "extern_module"
    let result = engine.store_module(&mut bridge, "extern_module");
    assert!(result.is_ok());
    let instance = result.unwrap();

    // check the name of the module
    let name = instance.name(engine.modules[&ctx].name.clone());
    assert!(name.is_some());
    assert_eq!(name.unwrap(), "extern_module");

    // get the exported function named "add"
    let found = Engine::find(&engine.modules[&ctx].funcs, "add");
    let result = instance.get_func(&mut bridge, "add", found);
    assert!(result.is_ok());
    let func = result.unwrap();

    // check the type of the function
    let (ty_ctx, params, rets) = engine.type_of(func.as_ptr(&bridge));
    let result = func.ty(ty_ctx, params, rets);
    assert!(result.is_ok());
    let ty = result.unwrap();
    assert_eq!(ty.params_type_iter(), [ValType::I32, ValType::I32]);
    assert_eq!(ty.returns_type_iter(), [ValType::I32]);

    // get the exported table named "table"
    let found = Engine::find(&engine.modules[&ctx].tables, "table");
    let result = instance.get_table("table", found);
    assert!(result.is_ok());
    let table = result.unwrap();
    assert!(table.registered);
    assert_eq!(table.inner, found);

    // get the exported memory named "mem"
    let found = Engine::find(&engine.modules[&ctx].memories, "mem");
    let result = instance.get_memory("mem", found);
    assert!(result.is_ok());
    assert_eq!(result.unwrap().inner, found);

    // get the exported global named "global"
    let found = Engine::find(&engine.modules[&ctx].globals, "global");
    let result = instance.get_global("global", found);
    assert!(result.is_ok());
    assert_eq!(result.unwrap().inner, found);

    // what is not there
    let found = Engine::find(&engine.modules[&ctx].funcs, "sub");
    assert_eq!(
        instance.get_func(&mut bridge, "sub", found).err(),
        Some(WasmEdgeError::Instance(InstanceError::NotFoundFunc("sub".to_string())))
    );
    assert_eq!(
        instance.get_table("t", 0).err(),
        Some(WasmEdgeError::Instance(InstanceError::NotFoundTable("t".to_string())))
    );
    assert_eq!(
        instance.get_memory("m", 0).err(),
        Some(WasmEdgeError::Instance(InstanceError::NotFoundMem("m".to_string())))
    );
    assert_eq!(
        instance.get_global("g", 0).err(),
        Some(WasmEdgeError::Instance(InstanceError::NotFoundGlobal("g".to_string())))
    );
}

#[test]
fn test_instance_find_names() {
    let mut engine = Engine::default();
    let mut bridge = Tables::new();
    let module_name = "extern_module";
    let import = extern_module(&mut engine, &mut bridge, module_name);
    let ctx = import.as_ptr(&bridge);
    engine.register_import(&import, &bridge);

    let result = engine.store_module(&mut bridge, "extern_module");
    assert!(result.is_ok());
    let instance = result.unwrap();

    let name = instance.name(engine.modules[&ctx].name.clone());
    assert!(name.is_some());
    assert_eq!(name.unwrap(), "extern_module");

    let module = &engine.modules[&ctx];
    assert_eq!(instance.func_len(&Engine::names(&module.funcs)), 1);
    let result = instance.func_names(Engine::names(&module.funcs));
    assert!(result.is_some());
    assert_eq!(result.unwrap(), ["add"]);

    assert_eq!(instance.table_len(&Engine::names(&module.tables)), 1);
    let result = instance.table_names(Engine::names(&module.tables));
    assert!(result.is_some());
    assert_eq!(result.unwrap(), ["table"]);

    assert_eq!(instance.mem_len(&Engine::names(&module.memories)), 1);
    let result = instance.mem_names(Engine::names(&module.memories));
    assert!(result.is_some());
    assert_eq!(result.unwrap(), ["mem"]);

    assert_eq!(instance.global_len(&Engine::names(&module.globals)), 1);
    let result = instance.global_names(Engine::names(&module.globals));
    assert!(result.is_some());
    assert_eq!(result.unwrap(), ["global"]);

    // a module without exports has no names, and an active module no name
    assert_eq!(instance.func_len(&vec![]), 0);
    assert_eq!(instance.table_len(&vec![]), 0);
    assert_eq!(instance.mem_len(&vec![]), 0);
    assert_eq!(instance.global_len(&vec![]), 0);
    assert_eq!(instance.func_names(vec![]), None);
    assert_eq!(instance.table_names(vec![]), None);
    assert_eq!(instance.mem_names(vec![]), None);
    assert_eq!(instance.global_names(vec![]), None);
    assert_eq!(instance.name(String::new()), None);
}

#[test]
fn test_instance_get() {
    let mut engine = Engine::default();
    let mut bridge = Tables::new();
    let module_name = "extern_module";

    assert!(engine.store.is_empty());

    let import = extern_module(&mut engine, &mut bridge, module_name);
    let ctx = import.as_ptr(&bridge);
    let import = ImportObject::Import(import);
    engine.store.insert(import.name().to_string(), import.as_raw_ptr(&bridge));

    let result = engine.store_module(&mut bridge, module_name);
    assert!(result.is_ok());
    let instance = result.unwrap();
    assert!(instance.registered());

    // get the exported memory
    let found = Engine::find(&engine.modules[&ctx].memories, "mem");
    let result = instance.get_memory("mem", found);
    assert!(result.is_ok());
    let memory = result.unwrap();
    assert_eq!(memory.inner, found);
    assert!(memory.registered);

    // get host data
    assert!(instance.host_data(engine.modules[&ctx].host_data).is_none());
}

#[test]
fn test_instance_clone() {
    let mut engine = Engine::default();
    let mut bridge = Tables::new();
    // clone of ImportModule
    {
        let import = extern_module(&mut engine, &mut bridge, "extern");
        let ctx = import.as_ptr(&bridge);
        assert_eq!(import.strong_count(&bridge), 1);

        // clone the import module
        let import_clone = import.retain(&mut bridge, None);
        assert_eq!(import.strong_count(&bridge), 2);
        assert_eq!(import_clone.name(), "extern");
        assert_eq!(import_clone.funcs_len(), 1);

        let steps = import.release(&mut bridge);
        assert_eq!(steps, vec![]);
        assert_eq!(import_clone.strong_count(&bridge), 1);
        assert_eq!(bridge.host_funcs_len(), 1);

        let func = Engine::find(&engine.modules[&ctx].funcs, "add");
        let steps = import_clone.release(&mut bridge);
        assert_eq!(steps, vec![Step::DeleteModule(ctx), Step::DeleteFunction(func)]);
        assert_eq!(bridge.host_funcs_len(), 0);
        assert_eq!(bridge.footprints_len(), 0);
    }

    // clone of WasiModule
    {
        let result = WasiModule::create(&mut bridge, 0x900);
        assert!(result.is_ok());
        let wasi_import = result.unwrap();
        assert_eq!(wasi_import.strong_count(&bridge), 1);

        let wasi_import_clone = wasi_import.retain(&mut bridge);
        assert_eq!(wasi_import.strong_count(&bridge), 2);

        assert_eq!(wasi_import.release(&mut bridge), vec![]);
        assert_eq!(wasi_import_clone.strong_count(&bridge), 1);
        assert_eq!(wasi_import_clone.release(&mut bridge), vec![Step::DeleteModule(0x900)]);
    }
}

#[test]
fn test_instance_wasi() {
    let mut bridge = Tables::new();
    let result = WasiModule::create(&mut bridge, 0x900);
    assert!(result.is_ok());
    let mut wasi_import = result.unwrap();
    assert_eq!(wasi_import.name(), "wasi_snapshot_preview1");
    assert!(!wasi_import.registered());
    assert_eq!(wasi_import.as_ptr(&bridge), 0x900);

    assert_eq!(WasiModule::create(&mut bridge, 0).err(), Some(WasmEdgeError::ImportObjCreate));

    assert_eq!(wasi_import.get_native_handler(0, 33), Ok(33));
    assert_eq!(
        wasi_import.get_native_handler(1, 33).err(),
        Some(WasmEdgeError::Instance(InstanceError::NotFoundMappedFdHandler))
    );

    let key = bridge.register(Box::new(real_add));
    let func = Function::create_sync_func(&mut bridge, key, 0x910, None).unwrap();
    assert_eq!(
        wasi_import.add_func(&bridge, func),
        Step::AddFunction { module: 0x900, func: 0x910 }
    );
    let wasi = ImportObject::Wasi(wasi_import);
    assert_eq!(wasi.name(), "wasi_snapshot_preview1");
    assert_eq!(wasi.as_raw_ptr(&bridge), 0x900);
    match wasi {
        ImportObject::Wasi(wasi) => {
            assert_eq!(
                wasi.release(&mut bridge),
                vec![Step::DeleteModule(0x900), Step::DeleteFunction(0x910)]
            );
        }
        ImportObject::Import(_) => unreachable!(),
    }
    assert_eq!(bridge.host_funcs_len(), 0);
}

#[test]
fn test_instance_create_import_with_data() {
    let module_name = "extern_module";
    let circle: usize = 0xC1;

    let mut engine = Engine::default();
    let mut bridge = Tables::new();

    fn hello(
        _frame: CallingFrame,
        _input: Vec<WasmValue>,
        data: usize,
    ) -> Result<Vec<WasmValue>, HostFuncError> {
        assert_eq!(data, 0xC1);
        Ok(vec![])
    }

    // create an import module
    let ctx = engine.module(module_name, Some(circle));
    let result = ImportModule::create(&mut bridge, module_name, Some(circle), ctx);
    assert!(result.is_ok());
    let mut import = result.unwrap();

    // add function to the import module
    let func_ty = engine.func_type(vec![ValType::I32; 2], vec![ValType::I32]).unwrap();
    let key = bridge.register(Box::new(real_add));
    let func = engine.bind(&func_ty, key, import.host_data_ptr());
    let result = import.add_func_new(&mut bridge, key, func);
    assert!(result.is_ok());
    engine.perform("add", result.unwrap());

    let hello_ty = engine.func_type(vec![], vec![]).unwrap();
    let key = bridge.register(Box::new(hello));
    let func = engine.bind(&hello_ty, key, import.host_data_ptr());
    let result = import.add_func_new(&mut bridge, key, func);
    assert!(result.is_ok());
    engine.perform("hello", result.unwrap());

    let import = ImportObject::Import(import);
    engine.store.insert(import.name().to_string(), import.as_raw_ptr(&bridge));

    let result = engine.store_module(&mut bridge, module_name);
    assert!(result.is_ok());
    let instance = result.unwrap();

    let result = instance.host_data(engine.modules[&ctx].host_data);
    assert!(result.is_some());
    assert_eq!(result.unwrap(), 0xC1);

    let found = Engine::find(&engine.modules[&ctx].funcs, "add");
    let fn_add = instance.get_func(&mut bridge, "add", found).unwrap();
    let found = Engine::find(&engine.modules[&ctx].funcs, "hello");
    let fn_hello = instance.get_func(&mut bridge, "hello", found).unwrap();

    let result = engine.run(
        &bridge,
        &fn_add.as_ref(&bridge),
        vec![WasmValue::from_i32(1), WasmValue::from_i32(2)],
    );
    assert!(result.is_ok());
    let returns = result.unwrap();
    assert_eq!(returns, vec![WasmValue::from_i32(3)]);

    let result = engine.run(&bridge, &fn_hello.as_ref(&bridge), vec![]);
    assert!(result.is_ok());

    // the functions of a module own no user data: the module does
    match import {
        ImportObject::Import(import) => {
            let steps = import.release(&mut bridge);
            assert!(!steps.contains(&Step::FreeUserData(found)));
            assert_eq!(steps.len(), 3);
        }
        ImportObject::Wasi(_) => unreachable!(),
    }
}

#[test]
fn instance_release_of_a_found_handle_takes_the_address() {
    let mut bridge = Tables::new();
    let instance = Instance::create(&mut bridge, 0x500, true);
    let copy = instance.retain(&mut bridge);
    assert_eq!(copy.strong_count(&bridge), 2);
    assert_eq!(copy.as_ptr(&bridge), 0x500);
    assert_eq!(instance.release(&mut bridge), vec![]);
    assert_eq!(copy.as_ptr(&bridge), 0);
    assert_eq!(copy.release(&mut bridge), vec![]);

    let owned = Instance::create(&mut bridge, 0x600, false);
    let copy = owned.retain(&mut bridge);
    assert_eq!(owned.release(&mut bridge), vec![]);
    assert_eq!(copy.as_ptr(&bridge), 0x600);
    assert_eq!(copy.release(&mut bridge), vec![Step::DeleteModule(0x600)]);
}

#[test]
fn wasi_module_is_asked_like_an_instance() {
    let mut bridge = Tables::new();
    let wasi = WasiModule::create(&mut bridge, 0x900).unwrap();
    assert!(wasi.has_room(&bridge));

    let func = wasi.get_func(&mut bridge, "fd_write", 0x910).unwrap();
    assert!(func.registered());
    assert!(!func.data_owner());
    assert_eq!(func.as_ptr(&bridge), 0x910);
    assert_eq!(func.cell(), 1);
    assert_eq!(
        wasi.get_func(&mut bridge, "fd_nope", 0).err(),
        Some(WasmEdgeError::Instance(InstanceError::NotFoundFunc("fd_nope".to_string())))
    );
    assert_eq!(wasi.get_table("t", 0x920).unwrap().inner, 0x920);
    assert_eq!(
        wasi.get_table("t", 0).err(),
        Some(WasmEdgeError::Instance(InstanceError::NotFoundTable("t".to_string())))
    );
    assert_eq!(wasi.get_memory("m", 0x930).unwrap().inner, 0x930);
    assert_eq!(
        wasi.get_memory("m", 0).err(),
        Some(WasmEdgeError::Instance(InstanceError::NotFoundMem("m".to_string())))
    );
    assert_eq!(wasi.get_global("g", 0x940).unwrap().inner, 0x940);
    assert_eq!(
        wasi.get_global("g", 0).err(),
        Some(WasmEdgeError::Instance(InstanceError::NotFoundGlobal("g".to_string())))
    );
    let names = vec!["args_get".to_string(), "fd_write".to_string()];
    assert_eq!(wasi.func_len(&names), 2);
    assert_eq!(wasi.table_len(&names), 2);
    assert_eq!(wasi.mem_len(&names), 2);
    assert_eq!(wasi.global_len(&names), 2);
    assert_eq!(wasi.func_names(names.clone()), Some(names.clone()));
    assert_eq!(wasi.table_names(names.clone()), Some(names.clone()));
    assert_eq!(wasi.mem_names(names.clone()), Some(names.clone()));
    assert_eq!(wasi.global_names(names.clone()), Some(names));
    assert_eq!(wasi.func_names(vec![]), None);
    assert_eq!(wasi.table_names(vec![]), None);
    assert_eq!(wasi.mem_names(vec![]), None);
    assert_eq!(wasi.global_names(vec![]), None);
    assert_eq!(func.release(&mut bridge), vec![]);
    assert_eq!(wasi.release(&mut bridge), vec![Step::DeleteModule(0x900)]);
}

#[test]
fn modules_are_given_tables_memories_and_globals() {
    let mut bridge = Tables::new();
    let mut import = ImportModule::create(&mut bridge, "extern", None, 0x100).unwrap();
    let mut wasi = WasiModule::create(&mut bridge, 0x900).unwrap();
    let mut table = Table { inner: 0x10, registered: false };
    let mut memory = Memory { inner: 0x20, registered: false };
    let mut global = Global { inner: 0x30, registered: false };
    assert_eq!(import.add_table(&bridge, &mut table), Step::AddTable { module: 0x100, table: 0x10 });
    assert_eq!(import.add_memory(&bridge, &mut memory), Step::AddMemory { module: 0x100, memory: 0x20 });
    assert_eq!(import.add_global(&bridge, &mut global), Step::AddGlobal { module: 0x100, global: 0x30 });
    // what was given away has lost its address
    assert_eq!(table, Table { inner: 0, registered: false });
    assert_eq!(memory, Memory { inner: 0, registered: false });
    assert_eq!(global, Global { inner: 0, registered: false });
    let mut table = Table { inner: 0x10, registered: false };
    let mut memory = Memory { inner: 0x20, registered: false };
    let mut global = Global { inner: 0x30, registered: false };
    assert_eq!(wasi.add_table(&bridge, &mut table), Step::AddTable { module: 0x900, table: 0x10 });
    assert_eq!(wasi.add_memory(&bridge, &mut memory), Step::AddMemory { module: 0x900, memory: 0x20 });
    assert_eq!(wasi.add_global(&bridge, &mut global), Step::AddGlobal { module: 0x900, global: 0x30 });
    assert_eq!((table.inner, memory.inner, global.inner), (0, 0, 0));
    assert_eq!(AsImport::name(&import), "extern");
    assert_eq!(import.funcs_len(), 0);
    bridge.well_formed();
}

#[test]
fn a_module_releases_each_function_once() {
    let mut bridge = Tables::new();
    let mut import = ImportModule::create(&mut bridge, "extern", None, 0x100).unwrap();
    let mut contexts = Vec::new();
    for n in 1..=5usize {
        let key = bridge.register(Box::new(real_add));
        let ctx = 0x1000 + n;
        assert!(import.add_func_new(&mut bridge, key, ctx).is_ok());
        contexts.push(ctx);
    }
    // one of the functions is shared with an owner outside the module
    let key = bridge.register(Box::new(real_add));
    let outside = Function::create_sync_func(&mut bridge, key, 0x2000, Some(9)).unwrap();
    let shared = outside.retain(&mut bridge);
    import.add_func(&bridge, shared);
    assert!(import.has_room(&bridge));
    assert_eq!(bridge.host_funcs_len(), 6);
    assert_eq!(bridge.footprints_len(), 6);

    let steps = import.release(&mut bridge);
    let mut expected = vec![Step::DeleteModule(0x100)];
    expected.extend(contexts.iter().map(|ctx| Step::DeleteFunction(*ctx)));
    assert_eq!(steps, expected);
    assert_eq!(bridge.host_funcs_len(), 1);
    assert_eq!(bridge.footprints_len(), 1);
    assert_eq!(outside.strong_count(&bridge), 1);
    assert_eq!(
        outside.release(&mut bridge),
        vec![Step::FreeUserData(0x2000), Step::DeleteFunction(0x2000)]
    );
    assert_eq!(bridge.host_funcs_len(), 0);
}

#[test]
fn a_release_beyond_repair_is_told_before_it_is_made() {
    let mut bridge = Tables::new();
    let mut import = ImportModule::create(&mut bridge, "extern", None, 0x100).unwrap();
    let key = bridge.register(Box::new(real_add));
    assert!(import.add_func_new(&mut bridge, key, 0x10).is_ok());
    assert_eq!(import.release_fault(&bridge), None);

    // a function without a footprint, behind a sound one
    let custom = Function::create_with_custom_wrapper(&mut bridge, 0x30, false).unwrap();
    let shared = custom.retain(&mut bridge);
    import.add_func(&bridge, custom);
    // as long as another handle holds the context, the module lets go of
    // one handle of two
    assert_eq!(import.release_fault(&bridge), None);
    assert_eq!(shared.release_fault(&bridge), None);
    assert_eq!(shared.release(&mut bridge), vec![]);
    assert_eq!(
        import.release_fault(&bridge),
        Some(hostfn_bridge::error::Fault::MissingFootprint { footprint: 0x30 })
    );
    // nothing was released by asking
    assert_eq!(bridge.host_funcs_len(), 1);
    assert_eq!(import.strong_count(&bridge), 1);

    // the same handle twice in one module: the second release is the last
    let mut wasi = WasiModule::create(&mut bridge, 0x900).unwrap();
    let key = bridge.register(Box::new(real_add));
    let func = Function::create_sync_func(&mut bridge, key, 0x20, None).unwrap();
    let copy = func.retain(&mut bridge);
    wasi.add_func(&bridge, func);
    wasi.add_func(&bridge, copy);
    assert_eq!(wasi.release_fault(&bridge), None);
    assert_eq!(
        wasi.release(&mut bridge),
        vec![Step::DeleteModule(0x900), Step::DeleteFunction(0x20)]
    );
    // a found handle on the context of a function that is gone
    let found = Function::found(&mut bridge, 0x20);
    assert_eq!(found.release_fault(&bridge), None);
    assert_eq!(found.release(&mut bridge), vec![]);
}
