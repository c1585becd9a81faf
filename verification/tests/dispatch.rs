use hostfn_bridge::bridge::Bridge;
use hostfn_bridge::error::{ErrCategory, Fault, HostFuncError, NativeResult};
use hostfn_bridge::trampoline::{
    decode_args, driven_fault, fetch, fetch_async, finish, finish_async, returns_fault,
    wrap_async_fn, wrap_fn,
};
use hostfn_bridge::value::{CallingFrame, RawValue, ValType, WasmValue};

type BoxedFn = Box<
    dyn Fn(CallingFrame, Vec<WasmValue>, usize) -> Result<Vec<WasmValue>, HostFuncError>
        + Send
        + Sync,
>;

fn real_add(
    _frame: CallingFrame,
    input: Vec<WasmValue>,
    _data: usize,
) -> Result<Vec<WasmValue>, HostFuncError> {
    if input.len() != 2 {
        return Err(HostFuncError::User(1));
    }
    let a = if input[0].ty() == ValType::I32 {
        input[0].to_i32()
    } else {
        return Err(HostFuncError::User(2));
    };
    let b = if input[1].ty() == ValType::I32 {
        input[1].to_i32()
    } else {
        return Err(HostFuncError::User(3));
    };
    Ok(vec![WasmValue::from_i32(a + b)])
}

fn empty_slot() -> RawValue {
    RawValue { value: 0, ty: 0 }
}

/// A dispatch that asks each test before it goes on, as a caller does
/// that knows nothing of the buffer and the closure: the fault, or the
/// answer to the engine.
fn dispatch(
    bridge: &Bridge<BoxedFn, ()>,
    key: usize,
    data: usize,
    frame_ctx: usize,
    params: &Vec<RawValue>,
    rets: &mut Vec<RawValue>,
) -> Result<NativeResult, Fault> {
    let args = decode_args(params)?;
    let real_fn = match bridge.lookup(key) {
        None => return Ok(NativeResult::not_found()),
        Some(real_fn) => real_fn,
    };
    let result = real_fn(CallingFrame::create(frame_ctx), args, data);
    match returns_fault(&result, rets.len()) {
        Some(fault) => Err(fault),
        None => Ok(finish(result, rets)),
    }
}

#[test]
fn round_trip_adds_two_integers() {
    let mut bridge: Bridge<BoxedFn, ()> = Bridge::new();
    let key = bridge.register(Box::new(real_add));
    let params = vec![WasmValue::from_i32(1).as_raw(), WasmValue::from_i32(2).as_raw()];
    let mut rets = vec![empty_slot()];
    let res = wrap_fn(&bridge, key, 0, 0, &params, &mut rets);
    assert_eq!(res, NativeResult::success());
    assert_eq!(rets.len(), 1);
    assert_eq!(WasmValue::from_raw(rets[0]), Some(WasmValue::from_i32(3)));
    assert_eq!(rets[0], RawValue { value: 3, ty: 0x7F });
    // and the same through the tests
    let mut rets = vec![empty_slot()];
    assert_eq!(dispatch(&bridge, key, 0, 0, &params, &mut rets), Ok(NativeResult::success()));
    assert_eq!(rets[0], RawValue { value: 3, ty: 0x7F });
}

#[test]
fn dispatch_miss_answers_code_five() {
    let bridge: Bridge<BoxedFn, ()> = Bridge::new();
    let params = vec![WasmValue::from_i32(1).as_raw()];
    let mut rets = vec![empty_slot()];
    let res = wrap_fn(&bridge, 42, 0, 0, &params, &mut rets);
    assert_eq!(res, NativeResult { category: ErrCategory::Wasm, code: 5 });
    assert_eq!(rets, vec![empty_slot()]);
}

#[test]
fn arity_mismatch_is_a_fault() {
    assert_eq!(
        returns_fault(&Ok(vec![]), 1),
        Some(Fault::ReturnCount { expected: 1, actual: 0 })
    );
    let two = vec![WasmValue::from_i32(1), WasmValue::from_i32(2)];
    assert_eq!(
        returns_fault(&Ok(two.clone()), 1),
        Some(Fault::ReturnCount { expected: 1, actual: 2 })
    );
    assert_eq!(returns_fault(&Ok(two), 2), None);
    assert_eq!(returns_fault(&Ok(vec![]), 0), None);
    // a failure fits any number of slots
    assert_eq!(returns_fault(&Err(HostFuncError::User(2)), 1), None);
    assert_eq!(returns_fault(&Err(HostFuncError::Runtime(9)), 0), None);
}

#[test]
fn arity_mismatch_of_a_dispatched_closure() {
    let mut bridge: Bridge<BoxedFn, ()> = Bridge::new();
    let none = bridge.register(Box::new(|_, _, _| Ok(vec![])));
    let two = bridge
        .register(Box::new(|_, _, _| Ok(vec![WasmValue::from_i32(1), WasmValue::from_i32(2)])));
    let mut rets = vec![empty_slot()];
    let end = dispatch(&bridge, none, 0, 0, &vec![], &mut rets);
    assert_eq!(end, Err(Fault::ReturnCount { expected: 1, actual: 0 }));
    assert_eq!(rets, vec![empty_slot()]);
    let end = dispatch(&bridge, two, 0, 0, &vec![], &mut rets);
    assert_eq!(end, Err(Fault::ReturnCount { expected: 1, actual: 2 }));
    assert_eq!(rets, vec![empty_slot()]);
    // with the declared number of slots each of them is fine
    let mut rets = vec![];
    assert_eq!(wrap_fn(&bridge, none, 0, 0, &vec![], &mut rets), NativeResult::success());
    let mut rets = vec![empty_slot(); 2];
    assert_eq!(wrap_fn(&bridge, two, 0, 0, &vec![], &mut rets), NativeResult::success());
    assert_eq!(rets[1], RawValue { value: 2, ty: 0x7F });
}

#[test]
fn failures_are_translated_by_kind() {
    let mut bridge: Bridge<BoxedFn, ()> = Bridge::new();
    let user = bridge.register(Box::new(|_, _, _| Err(HostFuncError::User(2))));
    let runtime = bridge.register(Box::new(|_, _, _| Err(HostFuncError::Runtime(9))));
    let mut rets = vec![empty_slot()];
    let res = wrap_fn(&bridge, user, 0, 0, &vec![], &mut rets);
    assert_eq!(res, NativeResult { category: ErrCategory::UserLevel, code: 2 });
    let res = wrap_fn(&bridge, runtime, 0, 0, &vec![], &mut rets);
    assert_eq!(res, NativeResult { category: ErrCategory::Wasm, code: 9 });
    assert_eq!(rets, vec![empty_slot()]);
}

#[test]
fn closure_gets_frame_arguments_and_data() {
    let mut bridge: Bridge<BoxedFn, ()> = Bridge::new();
    let key = bridge.register(Box::new(|frame, args, data| {
        let mut out = vec![WasmValue::from_i64(frame.as_ptr() as i64), WasmValue::from_i64(data as i64)];
        out.extend(args.into_iter().rev());
        Ok(out)
    }));
    let v128 = WasmValue { ty: ValType::V128, bits: u128::MAX };
    let params = vec![WasmValue::from_i32(-5).as_raw(), v128.as_raw()];
    let mut rets = vec![empty_slot(); 4];
    let res = wrap_fn(&bridge, key, 0xDA7A, 0xF4A3E, &params, &mut rets);
    assert_eq!(res, NativeResult::success());
    assert_eq!(
        rets,
        vec![
            RawValue { value: 0xF4A3E, ty: 0x7E },
            RawValue { value: 0xDA7A, ty: 0x7E },
            RawValue { value: u128::MAX, ty: 0x7B },
            RawValue { value: 0xFFFF_FFFB, ty: 0x7F },
        ]
    );
}

#[test]
fn unknown_tag_is_a_fault_before_the_lookup() {
    let mut bridge: Bridge<BoxedFn, ()> = Bridge::new();
    let key = bridge.register(Box::new(real_add));
    let params = vec![
        WasmValue::from_i32(1).as_raw(),
        RawValue { value: 2, ty: 0x11 },
        RawValue { value: 3, ty: 0x12 },
    ];
    let mut rets = vec![empty_slot()];
    let fault = Fault::UnknownValType { slot: 1, tag: 0x11 };
    assert_eq!(decode_args(&params), Err(fault));
    assert_eq!(dispatch(&bridge, key, 0, 0, &params, &mut rets), Err(fault));
    assert_eq!(dispatch(&bridge, key + 1, 0, 0, &params, &mut rets), Err(fault));
    assert_eq!(rets, vec![empty_slot()]);
    assert_eq!(
        decode_args(&vec![WasmValue::from_i32(1).as_raw(), WasmValue::from_i64(2).as_raw()]),
        Ok(vec![WasmValue::from_i32(1), WasmValue::from_i64(2)])
    );
}

#[test]
fn a_key_of_the_other_kind_is_a_miss() {
    let mut bridge: Bridge<BoxedFn, u8> = Bridge::new();
    let key = bridge.register_async(1);
    let mut rets = vec![];
    let res = wrap_fn(&bridge, key, 0, 0, &vec![], &mut rets);
    assert_eq!(res, NativeResult::not_found());
}

#[test]
fn finish_writes_in_order() {
    let mut rets = vec![empty_slot(); 3];
    let values =
        vec![WasmValue::from_i32(7), WasmValue::from_i64(-1), WasmValue { ty: ValType::F64, bits: 9 }];
    assert_eq!(finish(Ok(values), &mut rets), NativeResult::success());
    assert_eq!(
        rets,
        vec![
            RawValue { value: 7, ty: 0x7F },
            RawValue { value: 0xFFFF_FFFF_FFFF_FFFF, ty: 0x7E },
            RawValue { value: 9, ty: 0x7C },
        ]
    );
    let before = rets.clone();
    assert_eq!(
        finish(Err(HostFuncError::User(2)), &mut rets),
        NativeResult { category: ErrCategory::UserLevel, code: 2 }
    );
    assert_eq!(rets, before);
}

#[test]
fn failed_driver_is_a_runtime_failure() {
    let mut rets = vec![empty_slot()];
    assert_eq!(driven_fault(&None, 1), None);
    let res = finish_async(None, &mut rets);
    assert_eq!(res, NativeResult { category: ErrCategory::Wasm, code: 0x07 });
    assert_eq!(rets, vec![empty_slot()]);
    let res = finish_async(Some(Err(HostFuncError::User(4))), &mut rets);
    assert_eq!(res, NativeResult { category: ErrCategory::UserLevel, code: 4 });
    let driven = Some(Ok(vec![WasmValue::from_i32(8)]));
    assert_eq!(driven_fault(&driven, 1), None);
    let res = finish_async(driven, &mut rets);
    assert_eq!(res, NativeResult::success());
    assert_eq!(rets, vec![RawValue { value: 8, ty: 0x7F }]);
    assert_eq!(
        driven_fault(&Some(Ok(vec![])), 1),
        Some(Fault::ReturnCount { expected: 1, actual: 0 })
    );
}

type AsyncFn = Box<dyn Fn(CallingFrame, Vec<WasmValue>, usize) -> Result<Vec<WasmValue>, HostFuncError>>;

#[test]
fn asynchronous_dispatch_goes_through_the_driver() {
    let mut bridge: Bridge<BoxedFn, AsyncFn> = Bridge::new();
    let key = bridge.register_async(Box::new(real_add));
    let sync_key = bridge.register(Box::new(real_add));
    let params = vec![WasmValue::from_i32(1).as_raw(), WasmValue::from_i32(2).as_raw()];

    let mut rets = vec![empty_slot()];
    let res = wrap_async_fn(&bridge, key, 0, 0, &params, &mut rets, |f: &AsyncFn, frame, args, data| {
        Some(f(frame, args, data))
    });
    assert_eq!(res, NativeResult::success());
    assert_eq!(rets, vec![RawValue { value: 3, ty: 0x7F }]);

    // the driver fails
    let mut rets = vec![empty_slot()];
    let res = wrap_async_fn(&bridge, key, 0, 0, &params, &mut rets, |_: &AsyncFn, _, _, _| None);
    assert_eq!(res, NativeResult { category: ErrCategory::Wasm, code: 7 });
    assert_eq!(rets, vec![empty_slot()]);

    // no asynchronous closure under the key: the driver is not run
    let res = wrap_async_fn(&bridge, sync_key, 0, 0, &params, &mut rets, |_: &AsyncFn, _, _, _| {
        panic!("driven without a closure")
    });
    assert_eq!(res, NativeResult::not_found());
}

#[test]
fn fetch_copies_the_closure_out() {
    let mut bridge: Bridge<std::sync::Arc<BoxedFn>, u8> = Bridge::new();
    let key = bridge.register(std::sync::Arc::new(Box::new(real_add)));
    let other = bridge.register_async(3);
    let real_fn = fetch(&bridge, key).unwrap();
    // the bridge is free while the closure runs
    assert!(bridge.remove(key));
    let args = vec![WasmValue::from_i32(4), WasmValue::from_i32(5)];
    let result = real_fn(CallingFrame::create(0), args, 0);
    let mut rets = vec![empty_slot()];
    assert_eq!(returns_fault(&result, rets.len()), None);
    assert_eq!(finish(result, &mut rets), NativeResult::success());
    assert_eq!(rets, vec![RawValue { value: 9, ty: 0x7F }]);
    assert!(fetch(&bridge, key).is_none());
    assert!(fetch(&bridge, other).is_none());
    assert_eq!(fetch_async(&bridge, other), Some(3));
    assert_eq!(fetch_async(&bridge, key), None);
}
