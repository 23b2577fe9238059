//! The builtins: how many arguments each takes, what a call costs and what it
//! returns.

use crate::machine::cost_model::{BudgetV, BuiltinCost, BuiltinCosts, ExBudget};
use crate::machine::shared::rc_clone;
use crate::machine::term::{Constant, ConstantV, DefaultFunction};
use crate::machine::value::{values_view, Value, ValueV};
use std::rc::Rc;
use vstd::prelude::*;

verus! {

/// The number of arguments that a builtin takes before it is evaluated.
pub open spec fn arity(fun: DefaultFunction) -> nat {
    match fun {
        DefaultFunction::LengthOfByteString => 1,
        DefaultFunction::IfThenElse => 3,
        _ => 2,
    }
}

/// The size of an integer operand: the number of 64-bit words that hold its
/// magnitude.
pub open spec fn integer_size(i: int) -> nat {
    if -0x1_0000_0000_0000_0000 < i < 0x1_0000_0000_0000_0000 {
        1
    } else {
        2
    }
}

/// The size of an operand: words for an integer, bytes for a byte string or
/// data, nothing for anything else.
pub open spec fn operand_size(value: ValueV) -> nat {
    match value {
        ValueV::Con(ConstantV::Integer(i)) => integer_size(i),
        ValueV::Con(ConstantV::ByteString(bytes)) => bytes.len(),
        ValueV::Con(ConstantV::Data(bytes)) => bytes.len(),
        _ => 0,
    }
}

/// The sizes of all operands added up.
pub open spec fn operands_size(args: Seq<ValueV>) -> nat
    decreases args.len(),
{
    if args.len() == 0 {
        0
    } else {
        operands_size(args.drop_last()) + operand_size(args.last())
    }
}

/// What a call of `fun` on `args` costs under `costs`.
pub open spec fn builtin_cost(costs: BuiltinCosts, fun: DefaultFunction, args: Seq<ValueV>) -> BudgetV {
    costs.cost(fun).at(operands_size(args))
}

/// The integer at position `k` of `args`, if there is one.
pub open spec fn integer_arg(args: Seq<ValueV>, k: int) -> Option<int> {
    if 0 <= k < args.len() {
        match args[k] {
            ValueV::Con(ConstantV::Integer(i)) => Some(i),
            _ => None,
        }
    } else {
        None
    }
}

/// The byte string at position `k` of `args`, if there is one.
pub open spec fn bytes_arg(args: Seq<ValueV>, k: int) -> Option<Seq<u8>> {
    if 0 <= k < args.len() {
        match args[k] {
            ValueV::Con(ConstantV::ByteString(bytes)) => Some(bytes),
            _ => None,
        }
    } else {
        None
    }
}

/// The boolean at position `k` of `args`, if there is one.
pub open spec fn bool_arg(args: Seq<ValueV>, k: int) -> Option<bool> {
    if 0 <= k < args.len() {
        match args[k] {
            ValueV::Con(ConstantV::Bool(b)) => Some(b),
            _ => None,
        }
    } else {
        None
    }
}

/// An integer result, where the machine's integers can hold it.
pub open spec fn integer_result(i: int) -> Option<ValueV> {
    if i128::MIN <= i <= i128::MAX {
        Some(ValueV::Con(ConstantV::Integer(i)))
    } else {
        None
    }
}

pub open spec fn bool_result(b: bool) -> Option<ValueV> {
    Some(ValueV::Con(ConstantV::Bool(b)))
}

/// The value of `fun` applied to `args`; `None` where the number or the
/// shape of the arguments is not what `fun` takes, or where an integer
/// result is beyond what the machine's integers hold.
pub open spec fn eval(fun: DefaultFunction, args: Seq<ValueV>) -> Option<ValueV> {
    if args.len() != arity(fun) {
        None
    } else {
        match fun {
            DefaultFunction::AddInteger => match (integer_arg(args, 0), integer_arg(args, 1)) {
                (Some(a), Some(b)) => integer_result(a + b),
                _ => None,
            },
            DefaultFunction::SubtractInteger => match (integer_arg(args, 0), integer_arg(args, 1)) {
                (Some(a), Some(b)) => integer_result(a - b),
                _ => None,
            },
            DefaultFunction::MultiplyInteger => match (integer_arg(args, 0), integer_arg(args, 1)) {
                (Some(a), Some(b)) => integer_result(a * b),
                _ => None,
            },
            DefaultFunction::EqualsInteger => match (integer_arg(args, 0), integer_arg(args, 1)) {
                (Some(a), Some(b)) => bool_result(a == b),
                _ => None,
            },
            DefaultFunction::LessThanInteger => match (integer_arg(args, 0), integer_arg(args, 1)) {
                (Some(a), Some(b)) => bool_result(a < b),
                _ => None,
            },
            DefaultFunction::LessThanEqualsInteger => match (
                integer_arg(args, 0),
                integer_arg(args, 1),
            ) {
                (Some(a), Some(b)) => bool_result(a <= b),
                _ => None,
            },
            DefaultFunction::AppendByteString => match (bytes_arg(args, 0), bytes_arg(args, 1)) {
                (Some(a), Some(b)) => Some(ValueV::Con(ConstantV::ByteString(a + b))),
                _ => None,
            },
            DefaultFunction::EqualsByteString => match (bytes_arg(args, 0), bytes_arg(args, 1)) {
                (Some(a), Some(b)) => bool_result(a == b),
                _ => None,
            },
            DefaultFunction::LengthOfByteString => match bytes_arg(args, 0) {
                Some(a) => integer_result(a.len() as int),
                None => None,
            },
            DefaultFunction::IfThenElse => match bool_arg(args, 0) {
                Some(condition) => Some(
                    if condition {
                        args[1]
                    } else {
                        args[2]
                    },
                ),
                None => None,
            },
        }
    }
}

impl DefaultFunction {
    /// The number of arguments that the builtin takes.
    pub fn arity(&self) -> (res: usize)
        ensures
            res == arity(*self),
    {
        match self {
            DefaultFunction::LengthOfByteString => 1,
            DefaultFunction::IfThenElse => 3,
            _ => 2,
        }
    }
}

/// The size of one operand.
pub fn size_of_operand(value: &Value) -> (res: usize)
    ensures
        res == operand_size(value@),
{
    match value {
        Value::Con(constant) => match &**constant {
            Constant::Integer(i) => {
                if -0x1_0000_0000_0000_0000 < *i && *i < 0x1_0000_0000_0000_0000 {
                    1
                } else {
                    2
                }
            },
            Constant::ByteString(bytes) => bytes.len(),
            Constant::Data(bytes) => bytes.len(),
            _ => 0,
        },
        _ => 0,
    }
}

/// `intercept + slope * size`, or `None` where that is more than a counter
/// can hold.
fn linear_cost(intercept: i64, slope: i64, size: u128) -> (res: Option<i64>)
    requires
        intercept >= 0,
        slope >= 0,
    ensures
        res matches Some(cost) ==> cost == intercept + slope * size,
        res is None ==> intercept + slope * size > i64::MAX,
{
    if slope == 0 {
        assert(slope * size == 0) by (nonlinear_arith)
            requires
                slope == 0,
        ;
        return Some(intercept);
    }
    if size > 0x7fff_ffff_ffff_ffff {
        assert(slope * size >= size) by (nonlinear_arith)
            requires
                slope >= 1,
                size >= 0,
        ;
        return None;
    }
    assert(0 <= slope * size <= 0x7fff_ffff_ffff_ffff * 0x7fff_ffff_ffff_ffff) by (nonlinear_arith)
        requires
            0 <= slope <= 0x7fff_ffff_ffff_ffff,
            0 <= size <= 0x7fff_ffff_ffff_ffff,
    ;
    let product: i128 = (slope as i128) * (size as i128);
    let total: i128 = product + intercept as i128;
    if total > 0x7fff_ffff_ffff_ffff {
        None
    } else {
        Some(total as i64)
    }
}

/// What a call of `fun` on `args` costs under `costs`; `None` where either
/// amount is more than a counter can hold.
pub fn cost_of_call(costs: &BuiltinCosts, fun: DefaultFunction, args: &Vec<Rc<Value>>) -> (res:
    Option<ExBudget>)
    ensures
        res matches Some(cost) ==> cost@ == builtin_cost(*costs, fun, values_view(args@)),
        res is None ==> {
            let cost = builtin_cost(*costs, fun, values_view(args@));
            cost.cpu > i64::MAX || cost.mem > i64::MAX
        },
        costs.wf(),
{
    let ghost all = values_view(args@);
    let mut size: u128 = 0;
    let mut k: usize = 0;
    while k < args.len()
        invariant
            k <= args.len(),
            all == values_view(args@),
            size == operands_size(all.subrange(0, k as int)),
            size <= k * usize::MAX,
        decreases args.len() - k,
    {
        let one = size_of_operand(&args[k]);
        proof {
            let upto = all.subrange(0, k + 1);
            assert(upto.drop_last() =~= all.subrange(0, k as int));
            assert(upto.last() == args@[k as int]@);
        }
        assert((k + 1) * usize::MAX <= u128::MAX) by (nonlinear_arith)
            requires
                0 <= k < usize::MAX,
                usize::MAX <= 0xffff_ffff_ffff_ffff,
        ;
        assert(size + one <= (k + 1) * usize::MAX) by (nonlinear_arith)
            requires
                size <= k * usize::MAX,
                one <= usize::MAX,
        ;
        size = size + one as u128;
        k = k + 1;
    }
    proof {
        assert(all.subrange(0, k as int) =~= all);
    }
    let cost: BuiltinCost = costs.get(fun);
    proof {
        costs.lemma_wf();
    }
    match linear_cost(cost.cpu_intercept, cost.cpu_slope, size) {
        None => None,
        Some(cpu) => match linear_cost(cost.mem_intercept, cost.mem_slope, size) {
            None => None,
            Some(mem) => Some(ExBudget { mem, cpu }),
        },
    }
}

fn integer_at(args: &Vec<Rc<Value>>, k: usize) -> (res: Option<i128>)
    ensures
        res matches Some(i) ==> integer_arg(values_view(args@), k as int) == Some(i as int),
        res is None ==> integer_arg(values_view(args@), k as int) is None,
{
    if k >= args.len() {
        return None;
    }
    match &*args[k] {
        Value::Con(constant) => match &**constant {
            Constant::Integer(i) => Some(*i),
            _ => None,
        },
        _ => None,
    }
}

fn bytes_at(args: &Vec<Rc<Value>>, k: usize) -> (res: Option<&Vec<u8>>)
    ensures
        res matches Some(bytes) ==> bytes_arg(values_view(args@), k as int) == Some(bytes@),
        res is None ==> bytes_arg(values_view(args@), k as int) is None,
{
    if k >= args.len() {
        return None;
    }
    match &*args[k] {
        Value::Con(constant) => match &**constant {
            Constant::ByteString(bytes) => Some(bytes),
            _ => None,
        },
        _ => None,
    }
}

fn bool_at(args: &Vec<Rc<Value>>, k: usize) -> (res: Option<bool>)
    ensures
        res == bool_arg(values_view(args@), k as int),
{
    if k >= args.len() {
        return None;
    }
    match &*args[k] {
        Value::Con(constant) => match &**constant {
            Constant::Bool(b) => Some(*b),
            _ => None,
        },
        _ => None,
    }
}

fn integer_value(i: Option<i128>) -> (res: Option<Rc<Value>>)
    ensures
        res matches Some(v) ==> i matches Some(n) && v@ == ValueV::Con(ConstantV::Integer(n as int)),
        res is None ==> i is None,
{
    match i {
        Some(n) => Some(Rc::new(Value::Con(Rc::new(Constant::Integer(n))))),
        None => None,
    }
}

fn bool_value(b: bool) -> (res: Option<Rc<Value>>)
    ensures
        res matches Some(v) && v@ == ValueV::Con(ConstantV::Bool(b)),
{
    Some(Rc::new(Value::Con(Rc::new(Constant::Bool(b)))))
}

/// The two byte strings one after the other.
fn concat_bytes(a: &Vec<u8>, b: &Vec<u8>) -> (res: Vec<u8>)
    ensures
        res@ == a@ + b@,
{
    let mut out: Vec<u8> = Vec::new();
    let mut i: usize = 0;
    while i < a.len()
        invariant
            i <= a.len(),
            out@ == a@.subrange(0, i as int),
        decreases a.len() - i,
    {
        out.push(a[i]);
        i = i + 1;
        assert(out@ =~= a@.subrange(0, i as int));
    }
    assert(out@ =~= a@);
    let mut j: usize = 0;
    while j < b.len()
        invariant
            j <= b.len(),
            out@ == a@ + b@.subrange(0, j as int),
        decreases b.len() - j,
    {
        out.push(b[j]);
        j = j + 1;
        assert(out@ =~= a@ + b@.subrange(0, j as int));
    }
    assert(out@ =~= a@ + b@);
    out
}

/// Whether the two byte strings hold the same bytes.
fn same_bytes(a: &Vec<u8>, b: &Vec<u8>) -> (res: bool)
    ensures
        res == (a@ == b@),
{
    if a.len() != b.len() {
        return false;
    }
    let mut i: usize = 0;
    while i < a.len()
        invariant
            i <= a.len(),
            a.len() == b.len(),
            a@.subrange(0, i as int) == b@.subrange(0, i as int),
        decreases a.len() - i,
    {
        if a[i] != b[i] {
            return false;
        }
        i = i + 1;
        assert(a@.subrange(0, i as int) =~= a@.subrange(0, i - 1).push(a@[i - 1]));
        assert(b@.subrange(0, i as int) =~= b@.subrange(0, i - 1).push(b@[i - 1]));
    }
    assert(a@ =~= a@.subrange(0, i as int));
    assert(b@ =~= b@.subrange(0, i as int));
    true
}

/// Evaluates `fun` on `args`.
pub fn call(fun: DefaultFunction, args: &Vec<Rc<Value>>) -> (res: Option<Rc<Value>>)
    ensures
        res matches Some(v) ==> eval(fun, values_view(args@)) == Some(v@),
        res is None ==> eval(fun, values_view(args@)) is None,
{
    if args.len() != fun.arity() {
        return None;
    }
    match fun {
        DefaultFunction::AddInteger => match (integer_at(args, 0), integer_at(args, 1)) {
            (Some(a), Some(b)) => integer_value(a.checked_add(b)),
            _ => None,
        },
        DefaultFunction::SubtractInteger => match (integer_at(args, 0), integer_at(args, 1)) {
            (Some(a), Some(b)) => integer_value(a.checked_sub(b)),
            _ => None,
        },
        DefaultFunction::MultiplyInteger => match (integer_at(args, 0), integer_at(args, 1)) {
            (Some(a), Some(b)) => integer_value(a.checked_mul(b)),
            _ => None,
        },
        DefaultFunction::EqualsInteger => match (integer_at(args, 0), integer_at(args, 1)) {
            (Some(a), Some(b)) => bool_value(a == b),
            _ => None,
        },
        DefaultFunction::LessThanInteger => match (integer_at(args, 0), integer_at(args, 1)) {
            (Some(a), Some(b)) => bool_value(a < b),
            _ => None,
        },
        DefaultFunction::LessThanEqualsInteger => match (integer_at(args, 0), integer_at(args, 1)) {
            (Some(a), Some(b)) => bool_value(a <= b),
            _ => None,
        },
        DefaultFunction::AppendByteString => match (bytes_at(args, 0), bytes_at(args, 1)) {
            (Some(a), Some(b)) => Some(
                Rc::new(Value::Con(Rc::new(Constant::ByteString(concat_bytes(a, b))))),
            ),
            _ => None,
        },
        DefaultFunction::EqualsByteString => match (bytes_at(args, 0), bytes_at(args, 1)) {
            (Some(a), Some(b)) => bool_value(same_bytes(a, b)),
            _ => None,
        },
        DefaultFunction::LengthOfByteString => match bytes_at(args, 0) {
            Some(a) => integer_value(Some(a.len() as i128)),
            None => None,
        },
        DefaultFunction::IfThenElse => match bool_at(args, 0) {
            Some(condition) => Some(
                if condition {
                    rc_clone(&args[1])
                } else {
                    rc_clone(&args[2])
                },
            ),
            None => None,
        },
    }
}

} // verus!
