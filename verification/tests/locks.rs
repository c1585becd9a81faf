//! The bridge behind locks, as a process shares it: a lock around the
//! tables, and a lock of its own around each closure.

use hostfn_bridge::bridge::Bridge;
use hostfn_bridge::error::{ErrCategory, Fault, HostFuncError, NativeResult};
use hostfn_bridge::function::Function;
use hostfn_bridge::module::ImportModule;
use hostfn_bridge::trampoline::{decode_args, fetch, finish, returns_fault};
use hostfn_bridge::value::{CallingFrame, RawValue, ValType, WasmValue};
use parking_lot::{Mutex, RwLock};
use std::sync::Arc;

type BoxedFn = Box<
    dyn Fn(CallingFrame, Vec<WasmValue>, usize) -> Result<Vec<WasmValue>, HostFuncError>
        + Send
        + Sync,
>;

type Shared = Arc<Mutex<BoxedFn>>;

type Tables = RwLock<Bridge<Shared, ()>>;

fn register(tables: &Tables, real_fn: BoxedFn) -> usize {
    tables.write().register(Arc::new(Mutex::new(real_fn)))
}

/// The trampoline of a process: the tables are locked for the lookup
/// only, and the closure runs under its own lock.
fn dispatch(
    tables: &Tables,
    key: usize,
    params: &Vec<RawValue>,
    rets: &mut Vec<RawValue>,
) -> Result<NativeResult, Fault> {
    let args = decode_args(params)?;
    let fetched = fetch(&tables.read(), key);
    let real_fn = match fetched {
        None => return Ok(NativeResult::not_found()),
        Some(real_fn) => real_fn,
    };
    let result = {
        let locked = real_fn.lock();
        locked(CallingFrame::create(0), args, 0)
    };
    match returns_fault(&result, rets.len()) {
        Some(fault) => Err(fault),
        None => Ok(finish(result, rets)),
    }
}

fn slot() -> RawValue {
    RawValue { value: 0, ty: 0 }
}

fn real_add(
    _frame: CallingFrame,
    input: Vec<WasmValue>,
    _data: usize,
) -> Result<Vec<WasmValue>, HostFuncError> {
    if input.len() != 2 {
        return Err(HostFuncError::User(1));
    }
    let a = if input[0].ty() == ValType::I32 {
        input[0].to_i32()
    } else {
        return Err(HostFuncError::User(2));
    };
    let b = if input[1].ty() == ValType::I32 {
        input[1].to_i32()
    } else {
        return Err(HostFuncError::User(3));
    };
    Ok(vec![WasmValue::from_i32(a + b)])
}

fn assert_send<T: Send>(_: &T) {}

fn assert_sync<T: Sync>(_: &T) {}

#[test]
fn test_func_create_host_func_in_host_func() {
    let tables: Arc<Tables> = Arc::new(RwLock::new(Bridge::new()));

    let func = {
        let tables = Arc::clone(&tables);
        move |_frame: CallingFrame, _input: Vec<WasmValue>, _data: usize| {
            // create a new host function while this one runs: the
            // tables must not be locked now
            let key = register(&tables, Box::new(real_add));
            let result = Function::create_sync_func(&mut tables.write(), key, 0x20, None);
            assert!(result.is_ok());
            let host_func = result.unwrap();

            // run this function
            let params = vec![WasmValue::from_i32(1).as_raw(), WasmValue::from_i32(2).as_raw()];
            let mut rets = vec![slot()];
            let out = dispatch(&tables, key, &params, &mut rets);
            assert_eq!(out, Ok(NativeResult::success()));
            assert_eq!(WasmValue::from_raw(rets[0]).unwrap().to_i32(), 3);
            host_func.release(&mut tables.write());
            Ok(vec![])
        }
    };

    let key = register(&tables, Box::new(func));
    let result = Function::create_sync_func(&mut tables.write(), key, 0x10, None);
    assert!(result.is_ok());
    let host_func = result.unwrap();

    // run this function
    let mut rets = vec![];
    let out = dispatch(&tables, key, &vec![], &mut rets);
    assert_eq!(out, Ok(NativeResult::success()));
    assert_eq!(tables.read().host_funcs_len(), 1);
    host_func.release(&mut tables.write());
    assert_eq!(tables.read().host_funcs_len(), 0);
}

#[test]
fn a_running_closure_holds_its_own_lock_only() {
    let tables: Arc<Tables> = Arc::new(RwLock::new(Bridge::new()));
    let other = register(&tables, Box::new(|_, _, _| Ok(vec![WasmValue::from_i32(22)])));
    let own_key = Arc::new(Mutex::new(0usize));
    let key = {
        let inner = Arc::clone(&tables);
        let own_key = Arc::clone(&own_key);
        register(
            &tables,
            Box::new(move |_, _, _| {
                let tables = &inner;
                let me = Arc::clone(tables.read().lookup(*own_key.lock()).unwrap());
                let it = Arc::clone(tables.read().lookup(other).unwrap());
                // this closure is running: a second call of it would wait
                if me.try_lock().is_some() {
                    return Err(HostFuncError::User(1));
                }
                // another closure is free to run, and so are the tables
                if it.try_lock().is_none() || tables.try_write().is_none() {
                    return Err(HostFuncError::User(2));
                }
                let mut rets = vec![slot()];
                match dispatch(tables, other, &vec![], &mut rets) {
                    Ok(res) if res.is_ok() => {}
                    _ => return Err(HostFuncError::User(3)),
                }
                let theirs = WasmValue::from_raw(rets[0]).unwrap().to_i32();
                Ok(vec![WasmValue::from_i32(11), WasmValue::from_i32(theirs)])
            }),
        )
    };
    *own_key.lock() = key;
    let mut rets = vec![slot(), slot()];
    let out = dispatch(&tables, key, &vec![], &mut rets);
    assert_eq!(out, Ok(NativeResult::success()));
    assert_eq!(WasmValue::from_raw(rets[0]).unwrap().to_i32(), 11);
    assert_eq!(WasmValue::from_raw(rets[1]).unwrap().to_i32(), 22);
}

#[test]
fn dispatch_after_removal_misses() {
    let tables: Arc<Tables> = Arc::new(RwLock::new(Bridge::new()));
    let key = register(&tables, Box::new(real_add));
    let host_func = Function::create_sync_func(&mut tables.write(), key, 0x10, None).unwrap();
    host_func.release(&mut tables.write());
    let params = vec![WasmValue::from_i32(1).as_raw(), WasmValue::from_i32(2).as_raw()];
    let mut rets = vec![slot()];
    let out = dispatch(&tables, key, &params, &mut rets);
    assert_eq!(out, Ok(NativeResult { category: ErrCategory::Wasm, code: 5 }));
    assert_eq!(rets, vec![slot()]);
}

#[test]
fn test_func_send() {
    let mut bridge: Bridge<BoxedFn, ()> = Bridge::new();
    let key = bridge.register(Box::new(real_add));
    let result = Function::create_sync_func(&mut bridge, key, 0x10, None);
    assert!(result.is_ok());
    let host_func = result.unwrap();
    assert_send(&host_func);
    assert_send(&bridge);

    // get func type
    let result = host_func.ty(0x11, vec![ValType::I32; 2], vec![ValType::I32]);
    assert!(result.is_ok());
    let ty = result.unwrap();
    assert_send(&ty);

    // check parameters
    assert_eq!(ty.params_len(), 2);
    assert_eq!(ty.params_type_iter(), vec![ValType::I32; 2]);

    // check returns
    assert_eq!(ty.returns_len(), 1);
    assert_eq!(ty.returns_type_iter(), vec![ValType::I32]);
}

#[test]
fn test_func_sync() {
    let mut bridge: Bridge<BoxedFn, ()> = Bridge::new();
    let key = bridge.register(Box::new(real_add));
    let result = Function::create_sync_func(&mut bridge, key, 0x10, None);
    assert!(result.is_ok());
    let host_func = Arc::new(std::sync::Mutex::new(result.unwrap()));
    assert_sync(&host_func);
    assert_sync(&bridge);

    let host_func_cloned = Arc::clone(&host_func);
    let result = host_func_cloned.lock();
    assert!(result.is_ok());
    let host_func = result.unwrap();

    // get func type
    let result = host_func.ty(0x11, vec![ValType::I32; 2], vec![ValType::I32]);
    assert!(result.is_ok());
    let ty = result.unwrap();

    // check parameters
    assert_eq!(ty.params_len(), 2);
    assert_eq!(ty.params_type_iter(), vec![ValType::I32; 2]);

    // check returns
    assert_eq!(ty.returns_len(), 1);
    assert_eq!(ty.returns_type_iter(), vec![ValType::I32]);
}

#[test]
fn test_instance_import_module_send() {
    let host_name = "extern";
    let mut bridge: Bridge<BoxedFn, ()> = Bridge::new();

    // create an ImportModule instance
    let result = ImportModule::create(&mut bridge, host_name, None, 0x100);
    assert!(result.is_ok());
    let import = result.unwrap();
    assert_send(&import);

    assert_ne!(import.as_ptr(&bridge), 0);
    println!("{:?}", import);
}

#[test]
fn test_instance_import_module_sync() {
    let host_name = "extern";
    let bridge: Arc<RwLock<Bridge<BoxedFn, ()>>> = Arc::new(RwLock::new(Bridge::new()));

    // create an ImportModule instance
    let result = ImportModule::create(&mut bridge.write(), host_name, None, 0x100);
    assert!(result.is_ok());
    let mut import = result.unwrap();

    // add host function
    let key = bridge.write().register(Box::new(real_add));
    let result = import.add_func_new(&mut bridge.write(), key, 0x110);
    assert!(result.is_ok());

    // add table, memory, global
    assert!(import.add_table_new(&bridge.read(), 0x120).is_ok());
    assert!(import.add_memory_new(&bridge.read(), 0x130).is_ok());
    assert!(import.add_global_new(&bridge.read(), 0x140).is_ok());

    let import = Arc::new(std::sync::Mutex::new(import));
    assert_sync(&import);
    let import_cloned = Arc::clone(&import);
    let result = import_cloned.lock();
    assert!(result.is_ok());
    let import = result.unwrap();
    assert_eq!(import.name(), "extern");
    assert_eq!(import.as_ptr(&bridge.read()), 0x100);
    assert_eq!(import.funcs_len(), 1);
    assert_eq!(bridge.read().key_of(0x110), Some(key));
}
