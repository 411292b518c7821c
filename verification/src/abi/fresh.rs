//! The raw slots of a lowered function are fresh: no two of them share a
//! binding.

use crate::abi::export::{
    spec_export, spec_export_arg, spec_export_args, spec_export_receiver, spec_export_result,
    spec_export_return, spec_export_returns,
};
use crate::abi::import::{
    spec_abi_args, spec_abi_ret, spec_import, spec_import_arg, spec_import_args,
    spec_import_call, spec_import_receiver, spec_import_return, spec_import_returns,
};
use crate::abi::{Abi, AbiFunctionView, AbiTypeView, VarView};
use vstd::prelude::*;

verus! {

/// Whether the bindings of the given slots go from `low` up to `high`,
/// each above the one before.
pub open spec fn ascending(slots: Seq<VarView>, low: nat, high: nat) -> bool {
    &&& forall|i: int| 0 <= i < slots.len() ==> low <= (#[trigger] slots[i]).binding < high
    &&& forall|i: int, j: int|
        0 <= i < j < slots.len() ==> (#[trigger] slots[i]).binding < (#[trigger] slots[j]).binding
}

/// Ascending slots followed by ascending slots above them are ascending.
pub proof fn lemma_ascending_add(a: Seq<VarView>, b: Seq<VarView>, low: nat, mid: nat, high: nat)
    requires
        low <= mid <= high,
        ascending(a, low, mid),
        ascending(b, mid, high),
    ensures
        ascending(a + b, low, high),
{
    assert forall|i: int| 0 <= i < (a + b).len() implies low <= (#[trigger] (a + b)[i]).binding
        < high by {
        if i < a.len() {
            assert((a + b)[i] == a[i]);
        } else {
            assert((a + b)[i] == b[i - a.len()]);
        }
    }
    assert forall|i: int, j: int| 0 <= i < j < (a + b).len() implies (#[trigger] (a + b)[i]).binding
        < (#[trigger] (a + b)[j]).binding by {
        if j < a.len() {
            assert((a + b)[i] == a[i] && (a + b)[j] == a[j]);
        } else if i < a.len() {
            assert((a + b)[i] == a[i] && (a + b)[j] == b[j - a.len()]);
        } else {
            assert((a + b)[i] == b[i - a.len()] && (a + b)[j] == b[j - a.len()]);
        }
    }
}

/// Slots that are ascending in a range are ascending in a wider one.
pub proof fn lemma_ascending_widen(a: Seq<VarView>, low: nat, high: nat, lower: nat, higher: nat)
    requires
        ascending(a, low, high),
        lower <= low,
        high <= higher,
    ensures
        ascending(a, lower, higher),
{
}

/// The raw slots of a lifted argument are fresh.
pub proof fn lemma_export_arg_fresh(abi: Abi, out: VarView, next: nat)
    ensures
        next <= spec_export_arg(abi, out, next).next,
        ascending(
            spec_export_arg(abi, out, next).slots,
            next,
            spec_export_arg(abi, out, next).next,
        ),
    decreases out.ty, 0nat,
{
    let lowered = spec_export_arg(abi, out, next);
    match out.ty {
        AbiTypeView::Option(ty) => {
            let inner = spec_export_arg(abi, VarView { binding: next + 1, ty: *ty }, next + 2);
            lemma_export_arg_fresh(abi, VarView { binding: next + 1, ty: *ty }, next + 2);
            lemma_ascending_add(
                lowered.slots.subrange(0, 1),
                inner.slots,
                next,
                next + 2,
                inner.next,
            );
            assert(lowered.slots =~= lowered.slots.subrange(0, 1) + inner.slots);
        },
        AbiTypeView::Tuple(tys) => {
            lemma_export_args_fresh(abi, tys, tys.len(), next);
        },
        _ => {},
    }
}

/// The raw slots of a list of lifted arguments are fresh.
pub proof fn lemma_export_args_fresh(abi: Abi, tys: Seq<AbiTypeView>, n: nat, next: nat)
    ensures
        next <= spec_export_args(abi, tys, n, next).next,
        ascending(
            spec_export_args(abi, tys, n, next).slots,
            next,
            spec_export_args(abi, tys, n, next).next,
        ),
    decreases tys, n,
{
    if n == 0 || n > tys.len() {
    } else {
        let before = spec_export_args(abi, tys, (n - 1) as nat, next);
        let arg = VarView { binding: before.next, ty: tys[n - 1] };
        let this = spec_export_arg(abi, arg, before.next + 1);
        lemma_export_args_fresh(abi, tys, (n - 1) as nat, next);
        lemma_export_arg_fresh(abi, arg, before.next + 1);
        lemma_ascending_widen(this.slots, before.next + 1, this.next, before.next, this.next);
        lemma_ascending_add(before.slots, this.slots, next, before.next, this.next);
    }
}

/// The raw slots of a lowered returned value are fresh.
pub proof fn lemma_export_return_fresh(abi: Abi, ret: VarView, next: nat)
    ensures
        next <= spec_export_return(abi, ret, next).next,
        ascending(
            spec_export_return(abi, ret, next).slots,
            next,
            spec_export_return(abi, ret, next).next,
        ),
    decreases ret.ty, 0nat,
{
    let lowered = spec_export_return(abi, ret, next);
    match ret.ty {
        AbiTypeView::Option(ty) => {
            let some = VarView { binding: next + 1, ty: *ty };
            let inner = spec_export_return(abi, some, next + 2);
            lemma_export_return_fresh(abi, some, next + 2);
            lemma_ascending_add(
                lowered.slots.subrange(0, 1),
                inner.slots,
                next,
                next + 2,
                inner.next,
            );
            assert(lowered.slots =~= lowered.slots.subrange(0, 1) + inner.slots);
        },
        AbiTypeView::Result(ty) => {
            let ok = VarView { binding: next + 1, ty: *ty };
            let inner = spec_export_return(abi, ok, next + 6);
            lemma_export_return_fresh(abi, ok, next + 6);
            lemma_ascending_add(
                lowered.slots.subrange(0, 4),
                inner.slots,
                next,
                next + 6,
                inner.next,
            );
            assert(lowered.slots =~= lowered.slots.subrange(0, 4) + inner.slots);
        },
        AbiTypeView::Tuple(tys) => {
            lemma_export_returns_fresh(abi, tys, tys.len(), next);
        },
        _ => {},
    }
}

/// The raw slots of a list of lowered returned values are fresh.
pub proof fn lemma_export_returns_fresh(abi: Abi, tys: Seq<AbiTypeView>, n: nat, next: nat)
    ensures
        next <= spec_export_returns(abi, tys, n, next).next,
        ascending(
            spec_export_returns(abi, tys, n, next).slots,
            next,
            spec_export_returns(abi, tys, n, next).next,
        ),
    decreases tys, n,
{
    if n == 0 || n > tys.len() {
    } else {
        let before = spec_export_returns(abi, tys, (n - 1) as nat, next);
        let ret = VarView { binding: before.next, ty: tys[n - 1] };
        let this = spec_export_return(abi, ret, before.next + 1);
        lemma_export_returns_fresh(abi, tys, (n - 1) as nat, next);
        lemma_export_return_fresh(abi, ret, before.next + 1);
        lemma_ascending_widen(this.slots, before.next + 1, this.next, before.next, this.next);
        lemma_ascending_add(before.slots, this.slots, next, before.next, this.next);
    }
}

/// The raw slots of an argument that the calling side lowers are fresh.
pub proof fn lemma_import_arg_fresh(abi: Abi, arg: VarView, next: nat)
    ensures
        next <= spec_import_arg(abi, arg, next).next,
        ascending(
            spec_import_arg(abi, arg, next).slots,
            next,
            spec_import_arg(abi, arg, next).next,
        ),
    decreases arg.ty,
{
    let lowered = spec_import_arg(abi, arg, next);
    match arg.ty {
        AbiTypeView::Option(ty) => {
            let inner = spec_import_arg(abi, VarView { binding: next + 1, ty: *ty }, next + 2);
            lemma_import_arg_fresh(abi, VarView { binding: next + 1, ty: *ty }, next + 2);
            lemma_ascending_add(
                lowered.slots.subrange(0, 1),
                inner.slots,
                next,
                next + 2,
                inner.next,
            );
            assert(lowered.slots =~= lowered.slots.subrange(0, 1) + inner.slots);
        },
        _ => {},
    }
}

/// The raw slots of a list of arguments that the calling side lowers are
/// fresh.
pub proof fn lemma_import_args_fresh(
    abi: Abi,
    args: Seq<(Seq<char>, AbiTypeView)>,
    n: nat,
    next: nat,
)
    ensures
        next <= spec_import_args(abi, args, n, next).next,
        ascending(
            spec_import_args(abi, args, n, next).slots,
            next,
            spec_import_args(abi, args, n, next).next,
        ),
    decreases n,
{
    if n == 0 || n > args.len() {
    } else {
        let before = spec_import_args(abi, args, (n - 1) as nat, next);
        let arg = VarView { binding: before.next, ty: args[n - 1].1 };
        let this = spec_import_arg(abi, arg, before.next + 1);
        lemma_import_args_fresh(abi, args, (n - 1) as nat, next);
        lemma_import_arg_fresh(abi, arg, before.next + 1);
        lemma_ascending_widen(this.slots, before.next + 1, this.next, before.next, this.next);
        lemma_ascending_add(before.slots, this.slots, next, before.next, this.next);
    }
}

/// The raw slots of a returned value that the calling side lifts are
/// fresh.
pub proof fn lemma_import_return_fresh(
    abi: Abi,
    symbol: Seq<char>,
    ty: AbiTypeView,
    out: VarView,
    next: nat,
)
    ensures
        next <= spec_import_return(abi, symbol, ty, out, next).next,
        ascending(
            spec_import_return(abi, symbol, ty, out, next).slots,
            next,
            spec_import_return(abi, symbol, ty, out, next).next,
        ),
    decreases ty, 0nat,
{
    let lifted = spec_import_return(abi, symbol, ty, out, next);
    match ty {
        AbiTypeView::Option(inner) => {
            let rest = spec_import_return(abi, symbol, *inner, out, next + 1);
            lemma_import_return_fresh(abi, symbol, *inner, out, next + 1);
            lemma_ascending_add(lifted.slots.subrange(0, 1), rest.slots, next, next + 1, rest.next);
            assert(lifted.slots =~= lifted.slots.subrange(0, 1) + rest.slots);
        },
        AbiTypeView::Result(inner) => {
            let rest = spec_import_return(abi, symbol, *inner, out, next + 4);
            lemma_import_return_fresh(abi, symbol, *inner, out, next + 4);
            lemma_ascending_add(lifted.slots.subrange(0, 4), rest.slots, next, next + 4, rest.next);
            assert(lifted.slots =~= lifted.slots.subrange(0, 4) + rest.slots);
        },
        AbiTypeView::Tuple(tys) => {
            lemma_import_returns_fresh(abi, symbol, tys, tys.len(), next);
        },
        _ => {},
    }
}

/// The raw slots of a list of returned values that the calling side lifts
/// are fresh.
pub proof fn lemma_import_returns_fresh(
    abi: Abi,
    symbol: Seq<char>,
    tys: Seq<AbiTypeView>,
    n: nat,
    next: nat,
)
    ensures
        next <= spec_import_returns(abi, symbol, tys, n, next).next,
        ascending(
            spec_import_returns(abi, symbol, tys, n, next).slots,
            next,
            spec_import_returns(abi, symbol, tys, n, next).next,
        ),
    decreases tys, n,
{
    if n == 0 || n > tys.len() {
    } else {
        let before = spec_import_returns(abi, symbol, tys, (n - 1) as nat, next);
        let out = VarView { binding: before.next, ty: tys[n - 1] };
        let this = spec_import_return(abi, symbol, tys[n - 1], out, before.next + 1);
        lemma_import_returns_fresh(abi, symbol, tys, (n - 1) as nat, next);
        lemma_import_return_fresh(abi, symbol, tys[n - 1], out, before.next + 1);
        lemma_ascending_widen(this.slots, before.next + 1, this.next, before.next, this.next);
        lemma_ascending_add(before.slots, this.slots, next, before.next, this.next);
    }
}

/// The slots of the export side of a function are fresh: the bindings of
/// its raw parameters ascend, the bindings of its raw return slots ascend,
/// and every raw return slot has a binding above those of the raw
/// parameters. So no two raw slots share a binding.
pub proof fn export_slots_fresh(abi: Abi, f: AbiFunctionView)
    ensures
        exists|mid: nat, high: nat|
            mid <= high && ascending(spec_export(abi, f).ffi_args, 0, mid) && ascending(
                spec_export(abi, f).ffi_ret.slots(),
                mid,
                high,
            ),
{
    let head = spec_export_receiver(abi, f.ty).1;
    let tys = f.arg_types();
    let args = spec_export_args(abi, tys, tys.len(), head.next);
    let tail = spec_export_result(abi, f.ret, args.next).1;
    lemma_export_args_fresh(abi, tys, tys.len(), head.next);
    lemma_ascending_add(head.slots, args.slots, 0, head.next, args.next);
    if let Some(ty) = f.ret {
        lemma_export_return_fresh(abi, VarView { binding: args.next, ty }, args.next + 1);
        lemma_ascending_widen(tail.slots, args.next + 1, tail.next, args.next, tail.next);
    }
    assert(f.ret(tail.slots).slots() =~= tail.slots);
    assert(ascending(spec_export(abi, f).ffi_args, 0, args.next));
    assert(ascending(spec_export(abi, f).ffi_ret.slots(), args.next, tail.next));
}

/// The slots of the import side of a function are fresh: the bindings of
/// its raw parameters ascend, the bindings of its raw return slots ascend,
/// and every raw return slot has a binding above those of the raw
/// parameters. So no two raw slots share a binding.
pub proof fn import_slots_fresh(abi: Abi, f: AbiFunctionView)
    ensures
        exists|mid: nat, high: nat|
            mid <= high && ascending(spec_import(abi, f).ffi_args, 0, mid) && ascending(
                spec_import(abi, f).ffi_ret.slots(),
                mid,
                high,
            ),
{
    let receiver = spec_import_receiver(abi, f.ty);
    let abi_args = spec_abi_args(f);
    let args = spec_import_args(abi, abi_args, abi_args.len(), receiver.next);
    let ffi_args = receiver.slots + args.slots;
    let call = spec_import_call(
        abi,
        f.symbol(),
        spec_abi_ret(f.ret),
        ffi_args,
        args.next,
        args.cleanup,
    );
    lemma_import_args_fresh(abi, abi_args, abi_args.len(), receiver.next);
    lemma_ascending_add(receiver.slots, args.slots, 0, receiver.next, args.next);
    if let Some(ty) = spec_abi_ret(f.ret) {
        lemma_import_return_fresh(
            abi,
            f.symbol(),
            ty,
            VarView { binding: args.next + 1, ty },
            args.next + 2,
        );
        lemma_ascending_widen(call.slots, args.next + 2, call.next, args.next, call.next);
    }
    assert(f.ret(call.slots).slots() =~= call.slots);
    assert(ascending(spec_import(abi, f).ffi_args, 0, args.next));
    assert(ascending(spec_import(abi, f).ffi_ret.slots(), args.next, call.next));
}

} // verus!
