//! The raw shape of a lowered value is the same on both sides of the
//! boundary.

use crate::abi::export::{
    exportable, spec_export, spec_export_arg, spec_export_args, spec_export_receiver,
    spec_export_result, spec_export_return, spec_export_returns,
};
use crate::abi::import::{
    flatten_arg, flatten_args, importable, spec_abi_args, spec_abi_ret, spec_import,
    spec_import_arg, spec_import_args, spec_import_call, spec_import_receiver, spec_import_return,
    spec_import_returns,
};
use crate::abi::count::types_of;
use crate::abi::{all_nums, slot_nums, Abi, AbiFunctionView, AbiTypeView, VarView};
use vstd::prelude::*;

verus! {

/// The number types of two lists of number slots, one after another.
pub proof fn lemma_slot_nums_add(a: Seq<VarView>, b: Seq<VarView>)
    requires
        all_nums(a),
        all_nums(b),
    ensures
        all_nums(a + b),
        slot_nums(a + b) == slot_nums(a) + slot_nums(b),
{
    assert forall|i: int| 0 <= i < (a + b).len() implies (#[trigger] (a + b)[i]).ty is Num by {
        if i < a.len() {
            assert((a + b)[i] == a[i]);
        } else {
            assert((a + b)[i] == b[i - a.len()]);
        }
    }
    assert(slot_nums(a + b) =~= slot_nums(a) + slot_nums(b));
}

/// Where a type can be passed by the calling side, it can be passed.
pub proof fn lemma_import_arg_is_arg(ty: AbiTypeView)
    requires
        ty.import_arg_supported(),
    ensures
        ty.arg_supported(),
    decreases ty,
{
    match ty {
        AbiTypeView::Option(inner) => {
            lemma_import_arg_is_arg(*inner);
        },
        _ => {},
    }
}

/// The raw slots that lifting an argument takes are number slots of the
/// types that [`AbiTypeView::arg_shape`] gives.
pub proof fn lemma_export_arg_shape(abi: Abi, out: VarView, next: nat)
    requires
        out.ty.arg_supported(),
    ensures
        all_nums(spec_export_arg(abi, out, next).slots),
        slot_nums(spec_export_arg(abi, out, next).slots) == out.ty.arg_shape(abi),
    decreases out.ty, 0nat,
{
    let slots = spec_export_arg(abi, out, next).slots;
    match out.ty {
        AbiTypeView::Option(ty) => {
            let inner = spec_export_arg(abi, VarView { binding: next + 1, ty: *ty }, next + 2);
            lemma_export_arg_shape(abi, VarView { binding: next + 1, ty: *ty }, next + 2);
            lemma_slot_nums_add(slots.subrange(0, 1), inner.slots);
            assert(slots =~= slots.subrange(0, 1) + inner.slots);
            assert(slot_nums(slots.subrange(0, 1)) =~= seq![crate::abi::NumType::U8]);
        },
        AbiTypeView::Tuple(tys) => {
            lemma_export_args_shape(abi, tys, tys.len(), next);
        },
        _ => {
            assert(slot_nums(slots) =~= out.ty.arg_shape(abi));
        },
    }
}

/// The raw slots that lifting a list of arguments takes are number slots
/// of the types that [`AbiTypeView::args_shape`] gives.
pub proof fn lemma_export_args_shape(abi: Abi, tys: Seq<AbiTypeView>, n: nat, next: nat)
    requires
        AbiTypeView::args_supported(tys, n),
    ensures
        all_nums(spec_export_args(abi, tys, n, next).slots),
        slot_nums(spec_export_args(abi, tys, n, next).slots) == AbiTypeView::args_shape(
            tys,
            n,
            abi,
        ),
    decreases tys, n,
{
    if n == 0 || n > tys.len() {
        assert(slot_nums(spec_export_args(abi, tys, n, next).slots) =~= Seq::empty());
    } else {
        let before = spec_export_args(abi, tys, (n - 1) as nat, next);
        let arg = VarView { binding: before.next, ty: tys[n - 1] };
        lemma_export_args_shape(abi, tys, (n - 1) as nat, next);
        lemma_export_arg_shape(abi, arg, before.next + 1);
        lemma_slot_nums_add(before.slots, spec_export_arg(abi, arg, before.next + 1).slots);
    }
}

/// The raw slots that lowering an argument on the calling side gives are
/// number slots of the types that [`AbiTypeView::arg_shape`] gives.
pub proof fn lemma_import_arg_shape(abi: Abi, arg: VarView, next: nat)
    requires
        arg.ty.import_arg_supported(),
    ensures
        all_nums(spec_import_arg(abi, arg, next).slots),
        slot_nums(spec_import_arg(abi, arg, next).slots) == arg.ty.arg_shape(abi),
    decreases arg.ty,
{
    let slots = spec_import_arg(abi, arg, next).slots;
    match arg.ty {
        AbiTypeView::Option(ty) => {
            let inner = spec_import_arg(abi, VarView { binding: next + 1, ty: *ty }, next + 2);
            lemma_import_arg_shape(abi, VarView { binding: next + 1, ty: *ty }, next + 2);
            lemma_slot_nums_add(slots.subrange(0, 1), inner.slots);
            assert(slots =~= slots.subrange(0, 1) + inner.slots);
            assert(slot_nums(slots.subrange(0, 1)) =~= seq![crate::abi::NumType::U8]);
        },
        _ => {
            assert(slot_nums(slots) =~= arg.ty.arg_shape(abi));
        },
    }
}

/// The raw slots that lowering a returned value gives are number slots of
/// the types that [`AbiTypeView::ret_shape`] gives.
pub proof fn lemma_export_return_shape(abi: Abi, ret: VarView, next: nat)
    ensures
        all_nums(spec_export_return(abi, ret, next).slots),
        slot_nums(spec_export_return(abi, ret, next).slots) == ret.ty.ret_shape(abi),
    decreases ret.ty, 0nat,
{
    let slots = spec_export_return(abi, ret, next).slots;
    match ret.ty {
        AbiTypeView::Option(ty) => {
            let some = VarView { binding: next + 1, ty: *ty };
            let inner = spec_export_return(abi, some, next + 2);
            lemma_export_return_shape(abi, some, next + 2);
            lemma_slot_nums_add(slots.subrange(0, 1), inner.slots);
            assert(slots =~= slots.subrange(0, 1) + inner.slots);
            assert(slot_nums(slots.subrange(0, 1)) =~= seq![crate::abi::NumType::U8]);
        },
        AbiTypeView::Result(ty) => {
            let ok = VarView { binding: next + 1, ty: *ty };
            let inner = spec_export_return(abi, ok, next + 6);
            lemma_export_return_shape(abi, ok, next + 6);
            lemma_slot_nums_add(slots.subrange(0, 4), inner.slots);
            assert(slots =~= slots.subrange(0, 4) + inner.slots);
            assert(slot_nums(slots.subrange(0, 4)) =~= seq![
                crate::abi::NumType::U8,
                abi.iptr(),
                abi.uptr(),
                abi.uptr(),
            ]);
        },
        AbiTypeView::Tuple(tys) => {
            lemma_export_returns_shape(abi, tys, tys.len(), next);
        },
        _ => {
            assert(slot_nums(slots) =~= ret.ty.ret_shape(abi));
        },
    }
}

/// The raw slots that lowering a list of returned values gives are number
/// slots of the types that [`AbiTypeView::rets_shape`] gives.
pub proof fn lemma_export_returns_shape(abi: Abi, tys: Seq<AbiTypeView>, n: nat, next: nat)
    ensures
        all_nums(spec_export_returns(abi, tys, n, next).slots),
        slot_nums(spec_export_returns(abi, tys, n, next).slots) == AbiTypeView::rets_shape(
            tys,
            n,
            abi,
        ),
    decreases tys, n,
{
    if n == 0 || n > tys.len() {
        assert(slot_nums(spec_export_returns(abi, tys, n, next).slots) =~= Seq::empty());
    } else {
        let before = spec_export_returns(abi, tys, (n - 1) as nat, next);
        let ret = VarView { binding: before.next, ty: tys[n - 1] };
        lemma_export_returns_shape(abi, tys, (n - 1) as nat, next);
        lemma_export_return_shape(abi, ret, before.next + 1);
        lemma_slot_nums_add(before.slots, spec_export_return(abi, ret, before.next + 1).slots);
    }
}

/// The raw slots that lifting a returned value on the calling side takes
/// are number slots of the types that [`AbiTypeView::ret_shape`] gives.
pub proof fn lemma_import_return_shape(
    abi: Abi,
    symbol: Seq<char>,
    ty: AbiTypeView,
    out: VarView,
    next: nat,
)
    requires
        ty.import_ret_supported(),
    ensures
        all_nums(spec_import_return(abi, symbol, ty, out, next).slots),
        slot_nums(spec_import_return(abi, symbol, ty, out, next).slots) == ty.ret_shape(abi),
    decreases ty, 0nat,
{
    let slots = spec_import_return(abi, symbol, ty, out, next).slots;
    match ty {
        AbiTypeView::Option(inner) => {
            let rest = spec_import_return(abi, symbol, *inner, out, next + 1);
            lemma_import_return_shape(abi, symbol, *inner, out, next + 1);
            lemma_slot_nums_add(slots.subrange(0, 1), rest.slots);
            assert(slots =~= slots.subrange(0, 1) + rest.slots);
            assert(slot_nums(slots.subrange(0, 1)) =~= seq![crate::abi::NumType::U8]);
        },
        AbiTypeView::Result(inner) => {
            let rest = spec_import_return(abi, symbol, *inner, out, next + 4);
            lemma_import_return_shape(abi, symbol, *inner, out, next + 4);
            lemma_slot_nums_add(slots.subrange(0, 4), rest.slots);
            assert(slots =~= slots.subrange(0, 4) + rest.slots);
            assert(slot_nums(slots.subrange(0, 4)) =~= seq![
                crate::abi::NumType::U8,
                abi.iptr(),
                abi.uptr(),
                abi.uptr(),
            ]);
        },
        AbiTypeView::Tuple(tys) => {
            lemma_import_returns_shape(abi, symbol, tys, tys.len(), next);
        },
        _ => {
            assert(slot_nums(slots) =~= ty.ret_shape(abi));
        },
    }
}

/// The raw slots that lifting a list of returned values on the calling
/// side takes are number slots of the types that
/// [`AbiTypeView::rets_shape`] gives.
pub proof fn lemma_import_returns_shape(
    abi: Abi,
    symbol: Seq<char>,
    tys: Seq<AbiTypeView>,
    n: nat,
    next: nat,
)
    requires
        AbiTypeView::import_rets_supported(tys, n),
    ensures
        all_nums(spec_import_returns(abi, symbol, tys, n, next).slots),
        slot_nums(spec_import_returns(abi, symbol, tys, n, next).slots)
            == AbiTypeView::rets_shape(tys, n, abi),
    decreases tys, n,
{
    if n == 0 || n > tys.len() {
        assert(slot_nums(spec_import_returns(abi, symbol, tys, n, next).slots) =~= Seq::empty());
    } else {
        let before = spec_import_returns(abi, symbol, tys, (n - 1) as nat, next);
        let out = VarView { binding: before.next, ty: tys[n - 1] };
        lemma_import_returns_shape(abi, symbol, tys, (n - 1) as nat, next);
        lemma_import_return_shape(abi, symbol, tys[n - 1], out, before.next + 1);
        lemma_slot_nums_add(
            before.slots,
            spec_import_return(abi, symbol, tys[n - 1], out, before.next + 1).slots,
        );
    }
}

/// Slot-shape symmetry for an argument: for every convention and every
/// type that the calling side can pass, the raw slots that the calling
/// side gives have the number types, in the order, of the raw slots that
/// the exporting side takes, whatever the host slots and the first free
/// bindings are on the two sides.
pub proof fn arg_shape_symmetry(
    abi: Abi,
    ty: AbiTypeView,
    export_binding: nat,
    export_next: nat,
    import_binding: nat,
    import_next: nat,
)
    requires
        ty.import_arg_supported(),
    ensures
        slot_nums(
            spec_export_arg(abi, VarView { binding: export_binding, ty }, export_next).slots,
        ) == slot_nums(
            spec_import_arg(abi, VarView { binding: import_binding, ty }, import_next).slots,
        ),
{
    lemma_import_arg_is_arg(ty);
    lemma_export_arg_shape(abi, VarView { binding: export_binding, ty }, export_next);
    lemma_import_arg_shape(abi, VarView { binding: import_binding, ty }, import_next);
}

/// Slot-shape symmetry for a returned value: for every convention and
/// every type that the calling side can take, the raw slots that the
/// exporting side gives have the number types, in the order, of the raw
/// slots that the calling side takes, whatever the symbol, the host slots
/// and the first free bindings are.
pub proof fn return_shape_symmetry(
    abi: Abi,
    ty: AbiTypeView,
    symbol: Seq<char>,
    export_binding: nat,
    export_next: nat,
    import_out: VarView,
    import_next: nat,
)
    requires
        ty.import_ret_supported(),
    ensures
        slot_nums(
            spec_export_return(abi, VarView { binding: export_binding, ty }, export_next).slots,
        ) == slot_nums(spec_import_return(abi, symbol, ty, import_out, import_next).slots),
{
    lemma_export_return_shape(abi, VarView { binding: export_binding, ty }, export_next);
    lemma_import_return_shape(abi, symbol, ty, import_out, import_next);
}

/// The raw slots that lowering a list of named arguments on the calling
/// side gives are number slots of the types that
/// [`AbiTypeView::args_shape`] gives.
pub proof fn lemma_import_args_shape(
    abi: Abi,
    args: Seq<(Seq<char>, AbiTypeView)>,
    n: nat,
    next: nat,
)
    requires
        n <= args.len(),
        forall|i: int| 0 <= i < n ==> (#[trigger] args[i]).1.import_arg_supported(),
    ensures
        all_nums(spec_import_args(abi, args, n, next).slots),
        slot_nums(spec_import_args(abi, args, n, next).slots) == AbiTypeView::args_shape(
            types_of(args),
            n,
            abi,
        ),
    decreases n,
{
    if n == 0 {
        assert(slot_nums(spec_import_args(abi, args, n, next).slots) =~= Seq::empty());
    } else {
        let before = spec_import_args(abi, args, (n - 1) as nat, next);
        let arg = VarView { binding: before.next, ty: args[n - 1].1 };
        lemma_import_args_shape(abi, args, (n - 1) as nat, next);
        lemma_import_arg_shape(abi, arg, before.next + 1);
        lemma_slot_nums_add(before.slots, spec_import_arg(abi, arg, before.next + 1).slots);
    }
}

/// The shape of a prefix of a list of types depends on that prefix only.
pub proof fn lemma_args_shape_prefix(a: Seq<AbiTypeView>, b: Seq<AbiTypeView>, n: nat, abi: Abi)
    requires
        n <= a.len(),
        n <= b.len(),
        forall|i: int| 0 <= i < n ==> a[i] == b[i],
    ensures
        AbiTypeView::args_shape(a, n, abi) == AbiTypeView::args_shape(b, n, abi),
    decreases n,
{
    if n > 0 {
        lemma_args_shape_prefix(a, b, (n - 1) as nat, abi);
    }
}

/// The shape of two lists of types, one after another, is the shape of the
/// first followed by the shape of the second.
pub proof fn lemma_args_shape_add(a: Seq<AbiTypeView>, b: Seq<AbiTypeView>, n: nat, abi: Abi)
    requires
        n <= b.len(),
    ensures
        AbiTypeView::args_shape(a + b, a.len() + n, abi) == AbiTypeView::args_shape(
            a,
            a.len(),
            abi,
        ) + AbiTypeView::args_shape(b, n, abi),
    decreases n,
{
    if n == 0 {
        lemma_args_shape_prefix(a + b, a, a.len(), abi);
        assert(AbiTypeView::args_shape(a, a.len(), abi) + Seq::empty() =~= AbiTypeView::args_shape(
            a,
            a.len(),
            abi,
        ));
    } else {
        lemma_args_shape_add(a, b, (n - 1) as nat, abi);
        assert((a + b)[a.len() + n - 1] == b[n - 1]);
        assert((AbiTypeView::args_shape(a, a.len(), abi) + AbiTypeView::args_shape(
            b,
            (n - 1) as nat,
            abi,
        )) + b[n - 1].arg_shape(abi) =~= AbiTypeView::args_shape(a, a.len(), abi) + (
        AbiTypeView::args_shape(b, (n - 1) as nat, abi) + b[n - 1].arg_shape(abi)));
    }
}

/// Taking the tuples among the arguments apart does not change the raw
/// shape.
pub proof fn lemma_flatten_shape(args: Seq<(Seq<char>, AbiTypeView)>, n: nat, abi: Abi)
    requires
        n <= args.len(),
    ensures
        AbiTypeView::args_shape(
            types_of(flatten_args(args, n)),
            flatten_args(args, n).len(),
            abi,
        ) == AbiTypeView::args_shape(types_of(args), n, abi),
    decreases n,
{
    if n > 0 {
        let before = flatten_args(args, (n - 1) as nat);
        let this = flatten_arg(args[n - 1]);
        lemma_flatten_shape(args, (n - 1) as nat, abi);
        assert(flatten_args(args, n) == before + this);
        assert(types_of(before + this) =~= types_of(before) + types_of(this));
        lemma_args_shape_add(types_of(before), types_of(this), this.len(), abi);
        assert(types_of(args)[n - 1] == args[n - 1].1);
        match args[n - 1].1 {
            AbiTypeView::Tuple(tys) => {
                assert(types_of(this) =~= tys);
                assert(args[n - 1].1.arg_shape(abi) == AbiTypeView::args_shape(
                    tys,
                    tys.len(),
                    abi,
                ));
            },
            _ => {
                assert(types_of(this) =~= seq![args[n - 1].1]);
                assert(AbiTypeView::args_shape(types_of(this), 1, abi) =~= AbiTypeView::args_shape(
                    types_of(this),
                    0,
                    abi,
                ) + args[n - 1].1.arg_shape(abi));
                assert(AbiTypeView::args_shape(types_of(this), 1, abi) =~= args[n - 1].1.arg_shape(
                    abi,
                ));
            },
        }
    }
}

/// The slots of the return descriptor of a function are the raw return
/// slots it was made of.
pub proof fn lemma_ret_slots(f: AbiFunctionView, rets: Seq<VarView>)
    ensures
        f.ret(rets).slots() == rets,
{
    assert(f.ret(rets).slots() =~= rets);
}

/// Slot-shape symmetry for a function: where a function can be exported
/// and imported for a convention, the raw parameters of its import side
/// have the number types, in the order, of the raw parameters of its
/// export side, and so have the slots of the raw return.
pub proof fn function_shape_symmetry(abi: Abi, f: AbiFunctionView)
    requires
        exportable(abi, f),
        importable(abi, f),
    ensures
        slot_nums(spec_export(abi, f).ffi_args) == slot_nums(spec_import(abi, f).ffi_args),
        slot_nums(spec_export(abi, f).ffi_ret.slots()) == slot_nums(
            spec_import(abi, f).ffi_ret.slots(),
        ),
{
    let tys = f.arg_types();
    let head = spec_export_receiver(abi, f.ty).1;
    let exported = spec_export_args(abi, tys, tys.len(), head.next);
    let receiver = spec_import_receiver(abi, f.ty);
    let abi_args = spec_abi_args(f);
    let imported = spec_import_args(abi, abi_args, abi_args.len(), receiver.next);
    let flat = flatten_args(f.args, f.args.len());
    let boxed: Seq<(Seq<char>, AbiTypeView)> = if f.ty is PollFuture || f.ty is PollStream {
        seq![("boxed"@, AbiTypeView::Isize)]
    } else {
        Seq::empty()
    };
    // the raw parameters
    lemma_export_args_shape(abi, tys, tys.len(), head.next);
    lemma_import_args_shape(abi, abi_args, abi_args.len(), receiver.next);
    lemma_slot_nums_add(head.slots, exported.slots);
    lemma_slot_nums_add(receiver.slots, imported.slots);
    lemma_flatten_shape(f.args, f.args.len(), abi);
    assert(types_of(f.args) =~= tys);
    assert(types_of(abi_args) =~= types_of(boxed) + types_of(flat));
    lemma_args_shape_add(types_of(boxed), types_of(flat), flat.len(), abi);
    if f.ty is PollFuture || f.ty is PollStream {
        assert(AbiTypeView::args_shape(types_of(boxed), 1, abi) =~= AbiTypeView::args_shape(
            types_of(boxed),
            0,
            abi,
        ) + AbiTypeView::Isize.arg_shape(abi));
        assert(slot_nums(head.slots) =~= AbiTypeView::args_shape(types_of(boxed), 1, abi));
        assert(slot_nums(receiver.slots) =~= Seq::empty());
    } else {
        assert(slot_nums(head.slots) =~= slot_nums(receiver.slots));
        assert(AbiTypeView::args_shape(types_of(boxed), 0, abi) =~= Seq::empty());
    }
    assert(slot_nums(spec_export(abi, f).ffi_args) =~= slot_nums(spec_import(abi, f).ffi_args));
    // the raw return
    let tail = spec_export_result(abi, f.ret, exported.next).1;
    let call = spec_import_call(
        abi,
        f.symbol(),
        spec_abi_ret(f.ret),
        receiver.slots + imported.slots,
        imported.next,
        imported.cleanup,
    );
    lemma_ret_slots(f, tail.slots);
    lemma_ret_slots(f, call.slots);
    match f.ret {
        Some(ty) => {
            lemma_export_return_shape(
                abi,
                VarView { binding: exported.next, ty },
                exported.next + 1,
            );
            match spec_abi_ret(f.ret) {
                Some(_) => {
                    lemma_import_return_shape(
                        abi,
                        f.symbol(),
                        ty,
                        VarView { binding: imported.next + 1, ty },
                        imported.next + 2,
                    );
                },
                None => {
                    if let AbiTypeView::Tuple(tys) = ty {
                        assert(tys.len() == 0);
                        assert(AbiTypeView::rets_shape(tys, 0, abi).len() == 0);
                        assert(ty.ret_shape(abi) == AbiTypeView::rets_shape(tys, tys.len(), abi));
                    }
                    assert(ty.ret_shape(abi).len() == 0);
                    assert(slot_nums(tail.slots).len() == tail.slots.len());
                    assert(tail.slots =~= call.slots);
                },
            }
        },
        None => {},
    }
}

} // verus!
