//! Value types and tagged values, as the engine exchanges them.

use vstd::prelude::*;

verus! {

/// The type of a WebAssembly value.
#[derive(Clone, Copy, Debug, PartialEq, Eq, Structural)]
pub enum ValType {
    /// 32-bit integer.
    I32,
    /// 64-bit integer.
    I64,
    /// 32-bit floating point number.
    F32,
    /// 64-bit floating point number.
    F64,
    /// 128-bit vector.
    V128,
    /// Reference to a function.
    FuncRef,
    /// Reference to a host object.
    ExternRef,
}

impl ValType {
    /// The tag by which the engine names this type.
    pub open spec fn tag(self) -> u32 {
        match self {
            ValType::I32 => 0x7F,
            ValType::I64 => 0x7E,
            ValType::F32 => 0x7D,
            ValType::F64 => 0x7C,
            ValType::V128 => 0x7B,
            ValType::FuncRef => 0x70,
            ValType::ExternRef => 0x6F,
        }
    }

    /// The type that a tag names, if it names one.
    pub open spec fn of_tag(tag: u32) -> Option<ValType> {
        if tag == 0x7F {
            Some(ValType::I32)
        } else if tag == 0x7E {
            Some(ValType::I64)
        } else if tag == 0x7D {
            Some(ValType::F32)
        } else if tag == 0x7C {
            Some(ValType::F64)
        } else if tag == 0x7B {
            Some(ValType::V128)
        } else if tag == 0x70 {
            Some(ValType::FuncRef)
        } else if tag == 0x6F {
            Some(ValType::ExternRef)
        } else {
            None
        }
    }

    /// Encodes the type as the engine's tag.
    pub fn to_tag(self) -> (tag: u32)
        ensures
            tag == self.tag(),
    {
        tag_of_val_type(self)
    }

    /// Decodes a tag; `None` where the tag names no type.
    pub fn from_tag(tag: u32) -> (ty: Option<ValType>)
        ensures
            ty == ValType::of_tag(tag),
    {
        if tag == 0x7F || tag == 0x7E || tag == 0x7D || tag == 0x7C || tag == 0x7B || tag == 0x70
            || tag == 0x6F {
            Some(val_type_of_tag(tag))
        } else {
            None
        }
    }
}

/// Calls `u32::from` on the `wasmedge_types::ValType` of the same name.
/// The contract claims the table that the conversion's source spells out:
/// one tag for each of the seven types.
#[verifier::external_body]
fn tag_of_val_type(ty: ValType) -> (tag: u32)
    ensures
        tag == ty.tag(),
{
    u32::from(
        match ty {
            ValType::I32 => wasmedge_types::ValType::I32,
            ValType::I64 => wasmedge_types::ValType::I64,
            ValType::F32 => wasmedge_types::ValType::F32,
            ValType::F64 => wasmedge_types::ValType::F64,
            ValType::V128 => wasmedge_types::ValType::V128,
            ValType::FuncRef => wasmedge_types::ValType::FuncRef,
            ValType::ExternRef => wasmedge_types::ValType::ExternRef,
        },
    )
}

/// Calls `wasmedge_types::ValType::from` on a `u32`, which panics on a tag
/// outside its table; `requires` leaves those out. The contract claims the
/// same table read the other way.
#[verifier::external_body]
fn val_type_of_tag(tag: u32) -> (ty: ValType)
    requires
        ValType::of_tag(tag) is Some,
    ensures
        ValType::of_tag(tag) == Some(ty),
{
    match wasmedge_types::ValType::from(tag) {
        wasmedge_types::ValType::I32 => ValType::I32,
        wasmedge_types::ValType::I64 => ValType::I64,
        wasmedge_types::ValType::F32 => ValType::F32,
        wasmedge_types::ValType::F64 => ValType::F64,
        wasmedge_types::ValType::V128 => ValType::V128,
        wasmedge_types::ValType::FuncRef => ValType::FuncRef,
        wasmedge_types::ValType::ExternRef => ValType::ExternRef,
    }
}

/// A value as the engine lays it out: 128 bits of payload and a type tag.
#[derive(Clone, Copy, Debug, PartialEq, Eq, Structural)]
pub struct RawValue {
    /// The payload; a value narrower than 128 bits sits in the low bits.
    pub value: u128,
    /// The tag of the value's type.
    pub ty: u32,
}

/// A typed WebAssembly value.
#[derive(Clone, Copy, Debug, PartialEq, Eq, Structural)]
pub struct WasmValue {
    /// The value's type.
    pub ty: ValType,
    /// The payload; a value narrower than 128 bits sits in the low bits.
    pub bits: u128,
}

/// The payload that stands for a 32-bit integer.
pub open spec fn bits_of_i32(val: i32) -> u128 {
    (val as u32) as u128
}

/// The 32-bit integer in the low bits of a payload.
pub open spec fn i32_of_bits(bits: u128) -> i32 {
    (bits as u32) as i32
}

/// The payload that stands for a 64-bit integer.
pub open spec fn bits_of_i64(val: i64) -> u128 {
    (val as u64) as u128
}

/// The 64-bit integer in the low bits of a payload.
pub open spec fn i64_of_bits(bits: u128) -> i64 {
    (bits as u64) as i64
}

impl WasmValue {
    /// The engine's layout of this value.
    pub open spec fn raw(self) -> RawValue {
        RawValue { value: self.bits, ty: self.ty.tag() }
    }

    /// The typed value that a raw value stands for, if its tag names a type.
    pub open spec fn of_raw(raw: RawValue) -> Option<WasmValue> {
        match ValType::of_tag(raw.ty) {
            Some(ty) => Some(WasmValue { ty, bits: raw.value }),
            None => None,
        }
    }

    /// Makes a value from a 32-bit integer.
    pub fn from_i32(val: i32) -> (v: WasmValue)
        ensures
            v == (WasmValue { ty: ValType::I32, bits: bits_of_i32(val) }),
            i32_of_bits(v.bits) == val,
    {
        proof {
            lemma_i32_round_trip(val);
        }
        WasmValue { ty: ValType::I32, bits: (#[verifier::truncate] (val as u32)) as u128 }
    }

    /// Makes a value from a 64-bit integer.
    pub fn from_i64(val: i64) -> (v: WasmValue)
        ensures
            v == (WasmValue { ty: ValType::I64, bits: bits_of_i64(val) }),
            i64_of_bits(v.bits) == val,
    {
        proof {
            lemma_i64_round_trip(val);
        }
        WasmValue { ty: ValType::I64, bits: (#[verifier::truncate] (val as u64)) as u128 }
    }

    /// The 32-bit integer in the low bits of the payload, whatever the type.
    pub fn to_i32(&self) -> (val: i32)
        ensures
            val == i32_of_bits(self.bits),
    {
        #[verifier::truncate]
        ((#[verifier::truncate] (self.bits as u32)) as i32)
    }

    /// The 64-bit integer in the low bits of the payload, whatever the type.
    pub fn to_i64(&self) -> (val: i64)
        ensures
            val == i64_of_bits(self.bits),
    {
        #[verifier::truncate]
        ((#[verifier::truncate] (self.bits as u64)) as i64)
    }

    /// The value's type.
    pub fn ty(&self) -> (ty: ValType)
        ensures
            ty == self.ty,
    {
        self.ty
    }

    /// Decodes one slot of an argument buffer; `None` where the tag names
    /// no type.
    pub fn from_raw(raw: RawValue) -> (v: Option<WasmValue>)
        ensures
            v == WasmValue::of_raw(raw),
    {
        match ValType::from_tag(raw.ty) {
            Some(ty) => Some(WasmValue { ty, bits: raw.value }),
            None => None,
        }
    }

    /// Encodes the value for one slot of a return buffer.
    pub fn as_raw(&self) -> (raw: RawValue)
        ensures
            raw == self.raw(),
    {
        RawValue { value: self.bits, ty: self.ty.to_tag() }
    }
}

/// A 32-bit integer comes back unchanged from its payload.
pub proof fn lemma_i32_round_trip(val: i32)
    ensures
        i32_of_bits(bits_of_i32(val)) == val,
{
    assert((((val as u32) as u128) as u32) as i32 == val) by (bit_vector);
}

/// A 64-bit integer comes back unchanged from its payload.
pub proof fn lemma_i64_round_trip(val: i64)
    ensures
        i64_of_bits(bits_of_i64(val)) == val,
{
    assert((((val as u64) as u128) as u64) as i64 == val) by (bit_vector);
}

/// Decoding what was encoded gives the value back, and a tag names at most
/// one type.
pub proof fn lemma_raw_round_trip(v: WasmValue)
    ensures
        WasmValue::of_raw(v.raw()) == Some(v),
        ValType::of_tag(v.ty.tag()) == Some(v.ty),
{
}

/// Encoding what was decoded gives the raw value back.
pub proof fn lemma_raw_decoded(raw: RawValue)
    requires
        WasmValue::of_raw(raw) is Some,
    ensures
        WasmValue::of_raw(raw).unwrap().raw() == raw,
{
}

/// The handle of a call in progress, as the engine hands it to the
/// trampoline. It lives for one invocation.
#[derive(Clone, Copy, Debug, PartialEq, Eq, Structural)]
pub struct CallingFrame {
    /// The address of the engine's frame context.
    pub ctx: usize,
}

impl CallingFrame {
    /// The frame at an address, in contracts.
    pub open spec fn of_ctx(ctx: usize) -> CallingFrame {
        CallingFrame { ctx }
    }

    /// Wraps the engine's frame context.
    pub fn create(ctx: usize) -> (frame: CallingFrame)
        ensures
            frame == CallingFrame::of_ctx(ctx),
    {
        CallingFrame { ctx }
    }

    /// The address of the engine's frame context.
    pub fn as_ptr(&self) -> (ctx: usize)
        ensures
            ctx == self.ctx,
    {
        self.ctx
    }
}

} // verus!
