//! The trampolines: what the engine calls to reach a host closure.
//!
//! The engine hands a trampoline the key of a host function, the address
//! of the function's user data, the frame of the call, a buffer of
//! arguments and a buffer for the values to return, whose length is the
//! number of values that the function's type declares. The trampoline
//! decodes the arguments, finds the closure behind the key, runs it and
//! answers the engine with a [`NativeResult`].
//!
//! Two things are beyond repair: an argument whose tag names no type, and
//! a closure that returns another number of values than declared. No
//! trampoline takes them: they are left out by `requires`. Each has its
//! test, [`decode_args`] and [`returns_fault`], which names the
//! [`Fault`]; whoever cannot rule a fault out asks the test first, and
//! aborts on a fault.

use crate::bridge::Bridge;
use crate::error::{Fault, HostFuncError, NativeResult, ASYNC_DRIVER_FAILED};
use crate::value::{CallingFrame, RawValue, WasmValue};
use vstd::prelude::*;

verus! {

/// The tag in every slot names a type.
pub open spec fn all_known(params: Seq<RawValue>) -> bool {
    forall|i: int| 0 <= i < params.len() ==> (#[trigger] WasmValue::of_raw(params[i])) is Some
}

/// `slot` is the first slot whose tag names no type.
pub open spec fn first_unknown(params: Seq<RawValue>, slot: int) -> bool {
    &&& 0 <= slot < params.len()
    &&& WasmValue::of_raw(params[slot]) is None
    &&& all_known(params.take(slot))
}

/// `values` are the arguments that the buffer holds, slot by slot.
pub open spec fn decodes_to(params: Seq<RawValue>, values: Seq<WasmValue>) -> bool {
    &&& values.len() == params.len()
    &&& forall|i: int|
        0 <= i < params.len() ==> (#[trigger] WasmValue::of_raw(params[i])) == Some(values[i])
}

/// The return buffer that holds the given values, slot by slot.
pub open spec fn encoded(values: Seq<WasmValue>) -> Seq<RawValue> {
    Seq::new(values.len(), |i: int| values[i].raw())
}

/// What is wrong with a closure's result, where the function's type
/// declares `return_len` values: nothing with a failure, and nothing with
/// values of the declared number.
pub open spec fn fault_of(
    result: Result<Vec<WasmValue>, HostFuncError>,
    return_len: nat,
) -> Option<Fault> {
    match result {
        Ok(values) => if values@.len() == return_len {
            None
        } else {
            Some(
                Fault::ReturnCount { expected: return_len as usize, actual: values@.len() as usize },
            )
        },
        Err(_) => None,
    }
}

/// What the engine is answered after a closure came back with `result`:
/// success for values, and a failure translated by its kind.
pub open spec fn answer_of(result: Result<Vec<WasmValue>, HostFuncError>) -> NativeResult {
    match result {
        Ok(_) => NativeResult::spec_success(),
        Err(err) => NativeResult::of_error(err),
    }
}

/// The return buffer after a closure came back with `result`: the encoded
/// values, or the buffer as it was after a failure.
pub open spec fn returns_of(
    result: Result<Vec<WasmValue>, HostFuncError>,
    rets: Seq<RawValue>,
) -> Seq<RawValue> {
    match result {
        Ok(values) => encoded(values@),
        Err(_) => rets,
    }
}

/// What the asynchronous trampoline takes a driven future's end for: the
/// closure's own result, or a failure of the engine's kind where the
/// driver failed.
pub open spec fn driven_result(
    driven: Option<Result<Vec<WasmValue>, HostFuncError>>,
) -> Result<Vec<WasmValue>, HostFuncError> {
    match driven {
        Some(result) => result,
        None => Err(HostFuncError::Runtime(ASYNC_DRIVER_FAILED)),
    }
}

/// Decodes an argument buffer, one value per slot; the test for tags
/// that name no type. Fails on the first slot with such a tag.
pub fn decode_args(params: &Vec<RawValue>) -> (res: Result<Vec<WasmValue>, Fault>)
    ensures
        all_known(params@) <==> res is Ok,
        res matches Ok(values) ==> decodes_to(params@, values@),
        res matches Err(fault) ==> exists|slot: usize|
            first_unknown(params@, slot as int) && fault == (Fault::UnknownValType {
                slot,
                tag: params@[slot as int].ty,
            }),
{
    let mut values: Vec<WasmValue> = Vec::new();
    let mut slot: usize = 0;
    while slot < params.len()
        invariant
            slot <= params.len(),
            values@.len() == slot,
            forall|i: int|
                0 <= i < slot ==> (#[trigger] WasmValue::of_raw(params@[i])) == Some(values@[i]),
        decreases params.len() - slot,
    {
        match WasmValue::from_raw(params[slot]) {
            Some(value) => {
                values.push(value);
            },
            None => {
                proof {
                    assert(first_unknown(params@, slot as int));
                }
                return Err(Fault::UnknownValType { slot, tag: params[slot].ty });
            },
        }
        slot = slot + 1;
    }
    Ok(values)
}

/// The arguments of a buffer in which every tag names a type.
fn decoded_args(params: &Vec<RawValue>) -> (values: Vec<WasmValue>)
    requires
        all_known(params@),
    ensures
        decodes_to(params@, values@),
{
    match decode_args(params) {
        Ok(values) => values,
        Err(_) => unreached(),
    }
}

/// The test for a closure's result: what is wrong with it, where the
/// function's type declares `return_len` values. A fault is beyond
/// repair, and [`finish`] does not take such a result.
pub fn returns_fault(result: &Result<Vec<WasmValue>, HostFuncError>, return_len: usize) -> (fault:
    Option<Fault>)
    ensures
        fault == fault_of(*result, return_len as nat),
{
    match result {
        Ok(values) => {
            if values.len() == return_len {
                None
            } else {
                Some(Fault::ReturnCount { expected: return_len, actual: values.len() })
            }
        },
        Err(_) => None,
    }
}

/// Ends a dispatch whose closure came back with `result`.
///
/// Values are written to the return buffer in order, and the engine is
/// answered with success. A failure of the closure is translated by its
/// kind, and nothing is written. Values of another number than the
/// buffer has slots are no input: see [`returns_fault`].
pub fn finish(result: Result<Vec<WasmValue>, HostFuncError>, rets: &mut Vec<RawValue>) -> (res:
    NativeResult)
    requires
        fault_of(result, old(rets)@.len()) is None,
    ensures
        res == answer_of(result),
        final(rets)@ == returns_of(result, old(rets)@),
{
    match result {
        Ok(values) => {
            let return_len = rets.len();
            let mut idx: usize = 0;
            while idx < return_len
                invariant
                    idx <= return_len,
                    return_len == values@.len(),
                    rets@.len() == return_len,
                    forall|i: int| 0 <= i < idx ==> rets@[i] == (#[trigger] values@[i]).raw(),
                decreases return_len - idx,
            {
                rets.set(idx, values[idx].as_raw());
                idx = idx + 1;
            }
            proof {
                assert(rets@ =~= encoded(values@));
            }
            NativeResult::success()
        },
        Err(err) => NativeResult::from_error(err),
    }
}

/// Ends an asynchronous dispatch. `driven` is how driving the closure's
/// future ended: `None` where the driver failed, else the closure's
/// result. A failed driver counts as a failure of the engine's kind with
/// the code [`ASYNC_DRIVER_FAILED`]. Values of another number than the
/// buffer has slots are no input: see [`driven_fault`].
pub fn finish_async(
    driven: Option<Result<Vec<WasmValue>, HostFuncError>>,
    rets: &mut Vec<RawValue>,
) -> (res: NativeResult)
    requires
        fault_of(driven_result(driven), old(rets)@.len()) is None,
    ensures
        res == answer_of(driven_result(driven)),
        final(rets)@ == returns_of(driven_result(driven), old(rets)@),
{
    let result = match driven {
        Some(result) => result,
        None => Err(HostFuncError::Runtime(ASYNC_DRIVER_FAILED)),
    };
    finish(result, rets)
}

/// The test for the end of a driven future: what is wrong with it, where
/// the function's type declares `return_len` values.
pub fn driven_fault(
    driven: &Option<Result<Vec<WasmValue>, HostFuncError>>,
    return_len: usize,
) -> (fault: Option<Fault>)
    ensures
        fault == fault_of(driven_result(*driven), return_len as nat),
{
    match driven {
        Some(result) => returns_fault(result, return_len),
        None => None,
    }
}

/// Copies the synchronous closure behind a key out of the bridge.
///
/// Whoever shares the bridge under a lock holds the lock for this call
/// and no longer, so that the closure runs with the bridge free.
pub fn fetch<F: Clone, A>(bridge: &Bridge<F, A>, key: usize) -> (found: Option<F>)
    ensures
        found is Some <==> bridge@.sync_fn(key) is Some,
        found matches Some(real_fn) ==> cloned(bridge@.sync_fn(key).unwrap(), real_fn),
{
    match bridge.lookup(key) {
        None => None,
        Some(real_fn) => Some(real_fn.clone()),
    }
}

/// Copies the asynchronous closure behind a key out of the bridge, as
/// [`fetch`] does a synchronous one.
pub fn fetch_async<F, A: Clone>(bridge: &Bridge<F, A>, key: usize) -> (found: Option<A>)
    ensures
        found is Some <==> bridge@.async_fn(key) is Some,
        found matches Some(real_fn) ==> cloned(bridge@.async_fn(key).unwrap(), real_fn),
{
    match bridge.lookup_async(key) {
        None => None,
        Some(real_fn) => Some(real_fn.clone()),
    }
}

/// The closure may be called on the frame, `data` and the arguments of
/// the buffer, and whatever it returns then fits `return_len` slots.
pub open spec fn runs_on<F>(
    real_fn: F,
    frame_ctx: usize,
    params: Seq<RawValue>,
    data: usize,
    return_len: nat,
) -> bool where F: Fn(CallingFrame, Vec<WasmValue>, usize) -> Result<Vec<WasmValue>, HostFuncError> {
    forall|args: Vec<WasmValue>|
        #![trigger decodes_to(params, args@)]
        decodes_to(params, args@) ==> {
            &&& call_requires(real_fn, (CallingFrame::of_ctx(frame_ctx), args, data))
            &&& forall|result: Result<Vec<WasmValue>, HostFuncError>|
                #[trigger] call_ensures(
                    real_fn,
                    (CallingFrame::of_ctx(frame_ctx), args, data),
                    result,
                ) ==> fault_of(result, return_len) is None
        }
}

/// The trampoline of synchronous host functions.
///
/// Decodes the arguments, looks the closure up under `key`, calls it with
/// the frame, the arguments and `data`, and ends as [`finish`] says. Where
/// no synchronous closure is registered under `key`, the engine is
/// answered with the code [`crate::error::HOST_FUNC_NOT_FOUND`] in its own
/// category, and nothing is written.
///
/// A buffer with a tag that names no type is no input, nor is a closure
/// that may return another number of values than the return buffer has
/// slots.
pub fn wrap_fn<F, A>(
    bridge: &Bridge<F, A>,
    key: usize,
    data: usize,
    frame_ctx: usize,
    params: &Vec<RawValue>,
    rets: &mut Vec<RawValue>,
) -> (res: NativeResult) where
    F: Fn(CallingFrame, Vec<WasmValue>, usize) -> Result<Vec<WasmValue>, HostFuncError>,

    requires
        all_known(params@),
        bridge@.sync_fn(key) is Some ==> runs_on(
            bridge@.sync_fn(key).unwrap(),
            frame_ctx,
            params@,
            data,
            old(rets)@.len(),
        ),
    ensures
        bridge@.sync_fn(key) is None ==> final(rets)@ == old(rets)@ && res
            == NativeResult::spec_not_found(),
        bridge@.sync_fn(key) is Some ==> exists|
            args: Vec<WasmValue>,
            result: Result<Vec<WasmValue>, HostFuncError>,
        |
            {
                &&& decodes_to(params@, args@)
                &&& call_ensures(
                    bridge@.sync_fn(key).unwrap(),
                    (CallingFrame::of_ctx(frame_ctx), args, data),
                    result,
                )
                &&& fault_of(result, old(rets)@.len()) is None
                &&& res == answer_of(result)
                &&& final(rets)@ == returns_of(result, old(rets)@)
            },
{
    let frame = CallingFrame::create(frame_ctx);
    let args = decoded_args(params);
    match bridge.lookup(key) {
        None => NativeResult::not_found(),
        Some(real_fn) => {
            let ghost handed = args;
            proof {
                assert(decodes_to(params@, handed@));
            }
            let result = real_fn(frame, args, data);
            let ghost came_back = result;
            let res = finish(result, rets);
            proof {
                assert(call_ensures(
                    bridge@.sync_fn(key).unwrap(),
                    (CallingFrame::of_ctx(frame_ctx), handed, data),
                    came_back,
                ));
            }
            res
        },
    }
}

/// The driver may be called on the closure, the frame, `data` and the
/// arguments of the buffer, and however the future ends then, it fits
/// `return_len` slots.
pub open spec fn drives_on<A, D>(
    drive: D,
    real_fn: A,
    frame_ctx: usize,
    params: Seq<RawValue>,
    data: usize,
    return_len: nat,
) -> bool where
    D: FnOnce(&A, CallingFrame, Vec<WasmValue>, usize) -> Option<
        Result<Vec<WasmValue>, HostFuncError>,
    >,
 {
    forall|args: Vec<WasmValue>|
        #![trigger decodes_to(params, args@)]
        decodes_to(params, args@) ==> {
            &&& call_requires(drive, (&real_fn, CallingFrame::of_ctx(frame_ctx), args, data))
            &&& forall|driven: Option<Result<Vec<WasmValue>, HostFuncError>>|
                #[trigger] call_ensures(
                    drive,
                    (&real_fn, CallingFrame::of_ctx(frame_ctx), args, data),
                    driven,
                ) ==> fault_of(driven_result(driven), return_len) is None
        }
}

/// The trampoline of asynchronous host functions.
///
/// Works as [`wrap_fn`] does, on the asynchronous closure under `key`.
/// The closure is not called here: `drive` gets it with the frame, the
/// arguments and `data`, obtains its future, drives the future to its end
/// and returns the closure's result, or `None` where driving failed. The
/// dispatch then ends as [`finish_async`] says.
///
/// A buffer with a tag that names no type is no input, nor is a future
/// that may end with another number of values than the return buffer has
/// slots.
pub fn wrap_async_fn<F, A, D>(
    bridge: &Bridge<F, A>,
    key: usize,
    data: usize,
    frame_ctx: usize,
    params: &Vec<RawValue>,
    rets: &mut Vec<RawValue>,
    drive: D,
) -> (res: NativeResult) where
    D: FnOnce(&A, CallingFrame, Vec<WasmValue>, usize) -> Option<
        Result<Vec<WasmValue>, HostFuncError>,
    >,

    requires
        all_known(params@),
        bridge@.async_fn(key) is Some ==> drives_on(
            drive,
            bridge@.async_fn(key).unwrap(),
            frame_ctx,
            params@,
            data,
            old(rets)@.len(),
        ),
    ensures
        bridge@.async_fn(key) is None ==> final(rets)@ == old(rets)@ && res
            == NativeResult::spec_not_found(),
        bridge@.async_fn(key) is Some ==> exists|
            args: Vec<WasmValue>,
            driven: Option<Result<Vec<WasmValue>, HostFuncError>>,
        |
            {
                &&& decodes_to(params@, args@)
                &&& call_ensures(
                    drive,
                    (&bridge@.async_fn(key).unwrap(), CallingFrame::of_ctx(frame_ctx), args, data),
                    driven,
                )
                &&& fault_of(driven_result(driven), old(rets)@.len()) is None
                &&& res == answer_of(driven_result(driven))
                &&& final(rets)@ == returns_of(driven_result(driven), old(rets)@)
            },
{
    let args = decoded_args(params);
    match bridge.lookup_async(key) {
        None => NativeResult::not_found(),
        Some(real_fn) => {
            let frame = CallingFrame::create(frame_ctx);
            let ghost handed = args;
            proof {
                assert(decodes_to(params@, handed@));
            }
            let driven = drive(real_fn, frame, args, data);
            let ghost came_back = driven;
            let res = finish_async(driven, rets);
            proof {
                assert(call_ensures(
                    drive,
                    (&bridge@.async_fn(key).unwrap(), CallingFrame::of_ctx(frame_ctx), handed, data),
                    came_back,
                ));
            }
            res
        },
    }
}

} // verus!
