//! How the plugin turns the `i64` arguments of a call into WASM values of the
//! function's parameter types, and the WASM results back into `i64`s.
use vstd::prelude::*;

verus! {

/// The type of a WASM parameter or result, as far as calls care.
#[derive(Clone, Copy, Debug, PartialEq, Eq, Structural)]
pub enum ValueKind {
    I32,
    I64,
    F32,
    F64,
    /// `v128` and reference types.
    Other,
}

/// A numeric WASM value; floats are carried as their bits.
#[derive(Clone, Copy, Debug, PartialEq, Eq, Structural)]
pub enum NumValue {
    I32(i32),
    I64(i64),
    F32(u32),
    F64(u64),
}

/// The raw argument at position `i`: the caller's value, or 0 past the end
/// of what the caller passed.
pub open spec fn raw_arg(args: Seq<i64>, i: int) -> i64 {
    if 0 <= i < args.len() {
        args[i]
    } else {
        0
    }
}

/// The value passed for a parameter of type `kind` from the raw argument
/// `raw`: integers are cut to their width, floats take the low bits as their
/// bit pattern, and parameters of other types get an `i32`.
pub open spec fn arg_value(kind: ValueKind, raw: i64) -> NumValue {
    match kind {
        ValueKind::I32 => NumValue::I32(raw as i32),
        ValueKind::I64 => NumValue::I64(raw),
        ValueKind::F32 => NumValue::F32(raw as u32),
        ValueKind::F64 => NumValue::F64(raw as u64),
        ValueKind::Other => NumValue::I32(raw as i32),
    }
}

/// The zero that a result slot of type `kind` holds before the call.
pub open spec fn zero_value(kind: ValueKind) -> NumValue {
    match kind {
        ValueKind::I32 => NumValue::I32(0),
        ValueKind::I64 => NumValue::I64(0),
        ValueKind::F32 => NumValue::F32(0),
        ValueKind::F64 => NumValue::F64(0),
        ValueKind::Other => NumValue::I32(0),
    }
}

/// The `i64` that a result is reported as: integers sign-extended, float bits
/// taken as an integer, and 0 for values of other types (`None`).
pub open spec fn raw_result(v: Option<NumValue>) -> i64 {
    match v {
        Some(NumValue::I32(x)) => x as i64,
        Some(NumValue::I64(x)) => x,
        Some(NumValue::F32(b)) => b as i64,
        Some(NumValue::F64(b)) => b as i64,
        None => 0,
    }
}

/// The values passed to a function with parameter types `kinds` for the raw
/// arguments `args`.
pub open spec fn args_for(kinds: Seq<ValueKind>, args: Seq<i64>) -> Seq<NumValue> {
    Seq::new(kinds.len(), |i: int| arg_value(kinds[i], raw_arg(args, i)))
}

/// The `i64`s reported for the results `vals` to a caller with room for
/// `n_results` values.
pub open spec fn reported(vals: Seq<Option<NumValue>>, n_results: u32) -> Seq<i64> {
    Seq::new(reported_count(n_results, vals.len()), |i: int| raw_result(vals[i]))
}

/// The argument at position `i` as a number: the caller's value, or 0 where
/// the caller passed fewer arguments.
pub open spec fn given_arg(args: Seq<i64>, i: int) -> int {
    if 0 <= i < args.len() {
        args[i] as int
    } else {
        0
    }
}

/// Taking a 64-bit integer to 32 or 64 bits keeps it modulo the width.
proof fn narrowing_keeps_low_bits(raw: i64)
    ensures
        ((raw as i32) as int - raw as int) % 0x1_0000_0000 == 0,
        ((raw as u32) as int - raw as int) % 0x1_0000_0000 == 0,
        ((raw as u64) as int - raw as int) % 0x1_0000_0000_0000_0000 == 0,
        -0x8000_0000 <= raw < 0x8000_0000 ==> (raw as i32) as int == raw as int,
        0 <= raw ==> (raw as u64) as int == raw as int,
        0 <= raw < 0x1_0000_0000 ==> (raw as u32) as int == raw as int,
{
    assert(((raw as i32) as int - raw as int) % 0x1_0000_0000 == 0) by (bit_vector);
    assert(((raw as u32) as int - raw as int) % 0x1_0000_0000 == 0) by (bit_vector);
    assert(((raw as u64) as int - raw as int) % 0x1_0000_0000_0000_0000 == 0) by (bit_vector);
    assert(-0x8000_0000 <= raw < 0x8000_0000 ==> (raw as i32) as int == raw as int) by (bit_vector);
    assert(0 <= raw ==> (raw as u64) as int == raw as int) by (bit_vector);
    assert(0 <= raw < 0x1_0000_0000 ==> (raw as u32) as int == raw as int) by (bit_vector);
}

/// Each parameter of a call receives the caller's argument at its position
/// (0 where the caller passed none), carried into the parameter's type: an
/// `i64` parameter gets it unchanged; an `i32` parameter (and one of another
/// type) gets the `i32` that agrees with it in the low 32 bits, so any
/// argument in `i32` range arrives unchanged; an `f32` parameter gets the
/// low 32 bits as its bit pattern and an `f64` parameter all 64 bits.
pub proof fn arguments_reach_parameters(kinds: Seq<ValueKind>, args: Seq<i64>, i: int)
    requires
        0 <= i < kinds.len(),
    ensures
        args_for(kinds, args).len() == kinds.len(),
        kinds[i] == ValueKind::I64 ==> args_for(kinds, args)[i] == NumValue::I64(
            given_arg(args, i) as i64,
        ),
        kinds[i] == ValueKind::I32 || kinds[i] == ValueKind::Other ==> (args_for(
            kinds,
            args,
        )[i] matches NumValue::I32(x) && (x - given_arg(args, i)) % 0x1_0000_0000 == 0),
        (kinds[i] == ValueKind::I32 || kinds[i] == ValueKind::Other) && -0x8000_0000 <= given_arg(
            args,
            i,
        ) < 0x8000_0000 ==> (args_for(kinds, args)[i] matches NumValue::I32(x) && x == given_arg(
            args,
            i,
        )),
        kinds[i] == ValueKind::F32 ==> (args_for(kinds, args)[i] matches NumValue::F32(b) && (b
            - given_arg(args, i)) % 0x1_0000_0000 == 0),
        kinds[i] == ValueKind::F32 && 0 <= given_arg(args, i) < 0x1_0000_0000 ==> (args_for(
            kinds,
            args,
        )[i] matches NumValue::F32(b) && b == given_arg(args, i)),
        kinds[i] == ValueKind::F64 ==> (args_for(kinds, args)[i] matches NumValue::F64(b) && (b
            - given_arg(args, i)) % 0x1_0000_0000_0000_0000 == 0),
        kinds[i] == ValueKind::F64 && 0 <= given_arg(args, i) ==> (args_for(kinds, args)[i] matches NumValue::F64(
            b,
        ) && b == given_arg(args, i)),
{
    let raw = raw_arg(args, i);
    assert(raw as int == given_arg(args, i));
    narrowing_keeps_low_bits(raw);
}

fn arg_for(kind: ValueKind, raw: i64) -> (v: NumValue)
    ensures
        v == arg_value(kind, raw),
{
    match kind {
        ValueKind::I32 => NumValue::I32(raw as i32),
        ValueKind::I64 => NumValue::I64(raw),
        ValueKind::F32 => NumValue::F32(raw as u32),
        ValueKind::F64 => NumValue::F64(raw as u64),
        ValueKind::Other => NumValue::I32(raw as i32),
    }
}

/// The values passed to a function with parameter types `kinds` for the raw
/// arguments `args`: one per parameter, extra arguments dropped and missing
/// ones taken as 0.
pub fn call_args(kinds: &Vec<ValueKind>, args: &[i64]) -> (vals: Vec<NumValue>)
    ensures
        vals@.len() == kinds@.len(),
        forall|i: int|
            0 <= i < kinds@.len() ==> #[trigger] vals@[i] == arg_value(kinds@[i], raw_arg(args@, i)),
        vals@ == args_for(kinds@, args@),
{
    let mut vals: Vec<NumValue> = Vec::new();
    let n = kinds.len();
    let m = args.len();
    let mut i: usize = 0;
    while i < n
        invariant
            n == kinds@.len(),
            m == args@.len(),
            0 <= i <= n,
            vals@.len() == i,
            forall|j: int|
                0 <= j < i ==> #[trigger] vals@[j] == arg_value(kinds@[j], raw_arg(args@, j)),
        decreases n - i,
    {
        let raw: i64 = if i < m {
            args[i]
        } else {
            0
        };
        let v = arg_for(kinds[i], raw);
        vals.push(v);
        i = i + 1;
    }
    assert(vals@ =~= args_for(kinds@, args@));
    vals
}

/// A result slot starts as a zero of the result's own type (an `i32` zero for
/// a result of another type), so a slot that the call leaves alone reports 0.
pub proof fn result_slots_start_at_zero(k: ValueKind)
    ensures
        raw_result(Some(zero_value(k))) == 0,
        k == ValueKind::I32 || k == ValueKind::Other ==> zero_value(k) matches NumValue::I32(_),
        k == ValueKind::I64 ==> zero_value(k) matches NumValue::I64(_),
        k == ValueKind::F32 ==> zero_value(k) matches NumValue::F32(_),
        k == ValueKind::F64 ==> zero_value(k) matches NumValue::F64(_),
{
}

/// The result slots handed to a call of a function with result types
/// `kinds`: a zero of each type.
pub fn initial_results(kinds: &Vec<ValueKind>) -> (vals: Vec<NumValue>)
    ensures
        vals@.len() == kinds@.len(),
        forall|i: int| 0 <= i < kinds@.len() ==> #[trigger] vals@[i] == zero_value(kinds@[i]),
{
    let mut vals: Vec<NumValue> = Vec::new();
    let n = kinds.len();
    let mut i: usize = 0;
    while i < n
        invariant
            n == kinds@.len(),
            0 <= i <= n,
            vals@.len() == i,
            forall|j: int| 0 <= j < i ==> #[trigger] vals@[j] == zero_value(kinds@[j]),
        decreases n - i,
    {
        let v = match kinds[i] {
            ValueKind::I32 => NumValue::I32(0),
            ValueKind::I64 => NumValue::I64(0),
            ValueKind::F32 => NumValue::F32(0),
            ValueKind::F64 => NumValue::F64(0),
            ValueKind::Other => NumValue::I32(0),
        };
        vals.push(v);
        i = i + 1;
    }
    vals
}

/// The number of results reported to a caller with room for `n_results`.
pub open spec fn reported_count(n_results: u32, available: nat) -> nat {
    if n_results < available {
        n_results as nat
    } else {
        available
    }
}

/// A 64-bit pattern read as a signed integer keeps it modulo 2^64, and one
/// below 2^63 keeps it exactly.
proof fn bits_as_signed(b: u64)
    ensures
        ((b as i64) as int - b as int) % 0x1_0000_0000_0000_0000 == 0,
        b < 0x8000_0000_0000_0000 ==> (b as i64) as int == b as int,
{
    assert(((b as i64) as int - b as int) % 0x1_0000_0000_0000_0000 == 0) by (bit_vector);
    assert(b < 0x8000_0000_0000_0000 ==> (b as i64) as int == b as int) by (bit_vector);
}

/// A caller with room for `n_results` values gets the first results of the
/// call, as many as fit, each as an `i64` that holds it: an `i64` result
/// unchanged, an `i32` result with its value (sign-extended), an `f32`
/// result's bit pattern as a non-negative number, an `f64` result's 64 bits
/// as a signed integer, and 0 for a value of another type.
pub proof fn results_reported_as_i64(vals: Seq<Option<NumValue>>, n_results: u32, i: int)
    requires
        0 <= i < vals.len(),
        i < n_results,
    ensures
        reported(vals, n_results).len() == if n_results < vals.len() {
            n_results as int
        } else {
            vals.len() as int
        },
        vals[i] matches Some(NumValue::I64(x)) ==> reported(vals, n_results)[i] == x,
        vals[i] matches Some(NumValue::I32(x)) ==> reported(vals, n_results)[i] == x,
        vals[i] matches Some(NumValue::F32(b)) ==> reported(vals, n_results)[i] == b,
        vals[i] matches Some(NumValue::F64(b)) ==> (reported(vals, n_results)[i] - b)
            % 0x1_0000_0000_0000_0000 == 0,
        vals[i] matches Some(NumValue::F64(b)) ==> (b < 0x8000_0000_0000_0000 ==> reported(
            vals,
            n_results,
        )[i] == b),
        vals[i] is None ==> reported(vals, n_results)[i] == 0,
{
    match vals[i] {
        Some(NumValue::F64(b)) => {
            bits_as_signed(b);
        },
        _ => {},
    }
}

/// The `i64`s reported to a caller with room for `n_results` values: the
/// first results of the call, as many as fit.
pub fn raw_results(vals: &Vec<Option<NumValue>>, n_results: u32) -> (out: Vec<i64>)
    ensures
        out@.len() == reported_count(n_results, vals@.len()),
        forall|i: int| 0 <= i < out@.len() ==> #[trigger] out@[i] == raw_result(vals@[i]),
        out@ == reported(vals@, n_results),
{
    let mut out: Vec<i64> = Vec::new();
    let n = vals.len();
    let mut i: usize = 0;
    while i < n && (i as u64) < (n_results as u64)
        invariant
            n == vals@.len(),
            0 <= i <= n,
            i <= n_results,
            out@.len() == i,
            forall|j: int| 0 <= j < i ==> #[trigger] out@[j] == raw_result(vals@[j]),
        decreases n - i,
    {
        let r: i64 = match vals[i] {
            Some(NumValue::I32(x)) => x as i64,
            Some(NumValue::I64(x)) => x,
            Some(NumValue::F32(b)) => b as i64,
            Some(NumValue::F64(b)) => b as i64,
            None => 0,
        };
        out.push(r);
        i = i + 1;
    }
    assert(out@ =~= reported(vals@, n_results));
    out
}

} // verus!
