//! The temporary buffers of an import program are freed as they were
//! allocated.

use crate::abi::import::{
    spec_abi_args, spec_abi_ret, spec_import, spec_import_arg, spec_import_args,
    spec_import_call, spec_import_receiver, spec_import_return, spec_import_returns, InstrView,
};
use crate::abi::{Abi, AbiFunction, AbiFunctionView, AbiType, AbiTypeView, VarView};
use vstd::prelude::*;

verus! {

/// A buffer of `cap` elements at `ptr`, each of the given size and
/// alignment.
pub struct Buffer {
    pub ptr: VarView,
    pub cap: VarView,
    pub size: nat,
    pub align: nat,
}

/// The temporary buffers that a step allocates: a step that lowers
/// borrowed text or a borrowed slice allocates one, and a step that lowers
/// an optional value allocates those of its nested program.
pub open spec fn step_allocs(step: InstrView) -> Seq<Buffer>
    decreases step, 0nat,
{
    match step {
        InstrView::LowerString(arg, ptr, _, cap, size, align) => if arg.ty is RefStr {
            seq![Buffer { ptr, cap, size, align }]
        } else {
            Seq::empty()
        },
        InstrView::LowerVec(arg, ptr, _, cap, _, size, align) => if arg.ty is RefSlice {
            seq![Buffer { ptr, cap, size, align }]
        } else {
            Seq::empty()
        },
        InstrView::LowerOption(_, _, _, inner) => allocs(inner, inner.len()),
        _ => Seq::empty(),
    }
}

/// The temporary buffers that the first `n` steps of a program allocate,
/// in order.
pub open spec fn allocs(instr: Seq<InstrView>, n: nat) -> Seq<Buffer>
    decreases instr, n,
{
    if n == 0 || n > instr.len() {
        Seq::empty()
    } else {
        allocs(instr, (n - 1) as nat) + step_allocs(instr[n - 1])
    }
}

/// The buffer that a step frees, if it frees one.
pub open spec fn step_frees(step: InstrView) -> Seq<Buffer> {
    match step {
        InstrView::Deallocate(ptr, cap, size, align) => seq![Buffer { ptr, cap, size, align }],
        _ => Seq::empty(),
    }
}

/// The buffers that the first `n` steps of a program free, in order.
pub open spec fn frees(instr: Seq<InstrView>, n: nat) -> Seq<Buffer>
    decreases n,
{
    if n == 0 || n > instr.len() {
        Seq::empty()
    } else {
        frees(instr, (n - 1) as nat) + step_frees(instr[n - 1])
    }
}

/// Whether every step of a program frees a buffer.
pub open spec fn only_frees(instr: Seq<InstrView>) -> bool {
    forall|i: int| 0 <= i < instr.len() ==> (#[trigger] instr[i]) is Deallocate
}

/// The allocations of a prefix of a program depend on that prefix only.
pub proof fn lemma_allocs_prefix(a: Seq<InstrView>, b: Seq<InstrView>, n: nat)
    requires
        n <= a.len(),
        n <= b.len(),
        forall|i: int| 0 <= i < n ==> a[i] == b[i],
    ensures
        allocs(a, n) == allocs(b, n),
    decreases n,
{
    if n > 0 {
        lemma_allocs_prefix(a, b, (n - 1) as nat);
    }
}

/// The allocations of two programs, one after another.
pub proof fn lemma_allocs_add(a: Seq<InstrView>, b: Seq<InstrView>, n: nat)
    requires
        n <= b.len(),
    ensures
        allocs(a + b, a.len() + n) == allocs(a, a.len()) + allocs(b, n),
    decreases n,
{
    if n == 0 {
        lemma_allocs_prefix(a + b, a, a.len());
        assert(allocs(a, a.len()) + Seq::empty() =~= allocs(a, a.len()));
    } else {
        lemma_allocs_add(a, b, (n - 1) as nat);
        assert((a + b)[a.len() + n - 1] == b[n - 1]);
        assert((allocs(a, a.len()) + allocs(b, (n - 1) as nat)) + step_allocs(b[n - 1]) =~= allocs(
            a,
            a.len(),
        ) + (allocs(b, (n - 1) as nat) + step_allocs(b[n - 1])));
    }
}

/// The frees of a prefix of a program depend on that prefix only.
pub proof fn lemma_frees_prefix(a: Seq<InstrView>, b: Seq<InstrView>, n: nat)
    requires
        n <= a.len(),
        n <= b.len(),
        forall|i: int| 0 <= i < n ==> a[i] == b[i],
    ensures
        frees(a, n) == frees(b, n),
    decreases n,
{
    if n > 0 {
        lemma_frees_prefix(a, b, (n - 1) as nat);
    }
}

/// The frees of two programs, one after another.
pub proof fn lemma_frees_add(a: Seq<InstrView>, b: Seq<InstrView>, n: nat)
    requires
        n <= b.len(),
    ensures
        frees(a + b, a.len() + n) == frees(a, a.len()) + frees(b, n),
    decreases n,
{
    if n == 0 {
        lemma_frees_prefix(a + b, a, a.len());
        assert(frees(a, a.len()) + Seq::empty() =~= frees(a, a.len()));
    } else {
        lemma_frees_add(a, b, (n - 1) as nat);
        assert((a + b)[a.len() + n - 1] == b[n - 1]);
        assert((frees(a, a.len()) + frees(b, (n - 1) as nat)) + step_frees(b[n - 1]) =~= frees(
            a,
            a.len(),
        ) + (frees(b, (n - 1) as nat) + step_frees(b[n - 1])));
    }
}

/// The allocations of a program of one step.
pub proof fn lemma_allocs_one(step: InstrView)
    ensures
        allocs(seq![step], 1) == step_allocs(step),
{
    assert(allocs(seq![step], 0) =~= Seq::empty());
    assert(allocs(seq![step], 1) =~= allocs(seq![step], 0) + step_allocs(step));
    assert(Seq::<Buffer>::empty() + step_allocs(step) =~= step_allocs(step));
}

/// The allocations of a program of two steps.
pub proof fn lemma_allocs_two(first: InstrView, second: InstrView)
    ensures
        allocs(seq![first, second], 2) == step_allocs(first) + step_allocs(second),
{
    lemma_allocs_one(first);
    lemma_allocs_add(seq![first], seq![second], 1);
    lemma_allocs_one(second);
    assert(seq![first, second] =~= seq![first] + seq![second]);
}

/// The frees of a program of one step.
pub proof fn lemma_frees_one(step: InstrView)
    ensures
        frees(seq![step], 1) == step_frees(step),
{
    assert(frees(seq![step], 0) =~= Seq::empty());
    assert(frees(seq![step], 1) =~= frees(seq![step], 0) + step_frees(step));
    assert(Seq::<Buffer>::empty() + step_frees(step) =~= step_frees(step));
}

/// Lowering one argument frees after the call exactly the temporary
/// buffers that it allocates before the call, in the same order and with
/// the same size and alignment, and its steps after the call do nothing
/// else.
pub proof fn lemma_import_arg_cleanup(abi: Abi, arg: VarView, next: nat)
    ensures
        ({
            let lowered = spec_import_arg(abi, arg, next);
            &&& only_frees(lowered.cleanup)
            &&& frees(lowered.cleanup, lowered.cleanup.len()) == allocs(
                lowered.instr,
                lowered.instr.len(),
            )
        }),
    decreases arg.ty,
{
    let lowered = spec_import_arg(abi, arg, next);
    match arg.ty {
        AbiTypeView::Option(ty) => {
            lemma_import_arg_cleanup(abi, VarView { binding: next + 1, ty: *ty }, next + 2);
            lemma_allocs_one(lowered.instr[0]);
            assert(lowered.instr =~= seq![lowered.instr[0]]);
        },
        AbiTypeView::RefStr | AbiTypeView::RefSlice(_) => {
            lemma_allocs_two(lowered.instr[0], lowered.instr[1]);
            assert(lowered.instr =~= seq![lowered.instr[0], lowered.instr[1]]);
            lemma_frees_one(lowered.cleanup[0]);
            assert(lowered.cleanup =~= seq![lowered.cleanup[0]]);
            assert(Seq::<Buffer>::empty() + step_allocs(lowered.instr[1]) =~= step_allocs(
                lowered.instr[1],
            ));
        },
        AbiTypeView::Result(_) | AbiTypeView::Tuple(_) => {},
        _ => {
            lemma_allocs_one(lowered.instr[0]);
            assert(lowered.instr =~= seq![lowered.instr[0]]);
        },
    }
}

/// Lowering a list of arguments frees after the call exactly the
/// temporary buffers that it allocates before the call.
pub proof fn lemma_import_args_cleanup(
    abi: Abi,
    args: Seq<(Seq<char>, AbiTypeView)>,
    n: nat,
    next: nat,
)
    ensures
        ({
            let lowered = spec_import_args(abi, args, n, next);
            &&& only_frees(lowered.cleanup)
            &&& frees(lowered.cleanup, lowered.cleanup.len()) == allocs(
                lowered.instr,
                lowered.instr.len(),
            )
            &&& allocs(lowered.binds, lowered.binds.len()) == Seq::<Buffer>::empty()
        }),
    decreases n,
{
    if n == 0 || n > args.len() {
    } else {
        let before = spec_import_args(abi, args, (n - 1) as nat, next);
        let arg = VarView { binding: before.next, ty: args[n - 1].1 };
        let this = spec_import_arg(abi, arg, before.next + 1);
        lemma_import_args_cleanup(abi, args, (n - 1) as nat, next);
        lemma_import_arg_cleanup(abi, arg, before.next + 1);
        lemma_allocs_add(before.instr, this.instr, this.instr.len());
        lemma_frees_add(before.cleanup, this.cleanup, this.cleanup.len());
        let bind = InstrView::BindArg(args[n - 1].0, arg);
        lemma_allocs_add(before.binds, seq![bind], 1);
        lemma_allocs_one(bind);
        assert(before.binds.push(bind) =~= before.binds + seq![bind]);
    }
}

/// Lifting a returned value allocates no temporary buffer.
pub proof fn lemma_import_return_allocs(
    abi: Abi,
    symbol: Seq<char>,
    ty: AbiTypeView,
    out: VarView,
    next: nat,
)
    ensures
        ({
            let lifted = spec_import_return(abi, symbol, ty, out, next);
            allocs(lifted.instr, lifted.instr.len()) == Seq::<Buffer>::empty()
        }),
    decreases ty, 0nat,
{
    let lifted = spec_import_return(abi, symbol, ty, out, next);
    match ty {
        AbiTypeView::Option(inner) => {
            let rest = spec_import_return(abi, symbol, *inner, out, next + 1);
            lemma_import_return_allocs(abi, symbol, *inner, out, next + 1);
            lemma_allocs_one(lifted.instr[0]);
            lemma_allocs_add(seq![lifted.instr[0]], rest.instr, rest.instr.len());
        },
        AbiTypeView::Result(inner) => {
            let rest = spec_import_return(abi, symbol, *inner, out, next + 4);
            lemma_import_return_allocs(abi, symbol, *inner, out, next + 4);
            lemma_allocs_one(lifted.instr[0]);
            lemma_allocs_add(seq![lifted.instr[0]], rest.instr, rest.instr.len());
        },
        AbiTypeView::Tuple(tys) => {
            let elems = spec_import_returns(abi, symbol, tys, tys.len(), next);
            lemma_import_returns_allocs(abi, symbol, tys, tys.len(), next);
            let last = lifted.instr[lifted.instr.len() - 1];
            lemma_allocs_one(last);
            lemma_allocs_add(elems.instr, seq![last], 1);
            assert(lifted.instr =~= elems.instr + seq![last]);
        },
        AbiTypeView::String | AbiTypeView::Vec(_) => {
            lemma_allocs_two(lifted.instr[0], lifted.instr[1]);
            assert(lifted.instr =~= seq![lifted.instr[0], lifted.instr[1]]);
        },
        AbiTypeView::RefObject(_) | AbiTypeView::RefFuture(_) | AbiTypeView::RefStream(_) => {},
        _ => {
            lemma_allocs_one(lifted.instr[0]);
            assert(lifted.instr =~= seq![lifted.instr[0]]);
        },
    }
}

/// Lifting a list of returned values allocates no temporary buffer.
pub proof fn lemma_import_returns_allocs(
    abi: Abi,
    symbol: Seq<char>,
    tys: Seq<AbiTypeView>,
    n: nat,
    next: nat,
)
    ensures
        ({
            let lifted = spec_import_returns(abi, symbol, tys, n, next);
            allocs(lifted.instr, lifted.instr.len()) == Seq::<Buffer>::empty()
        }),
    decreases tys, n,
{
    if n == 0 || n > tys.len() {
    } else {
        let before = spec_import_returns(abi, symbol, tys, (n - 1) as nat, next);
        let out = VarView { binding: before.next, ty: tys[n - 1] };
        let this = spec_import_return(abi, symbol, tys[n - 1], out, before.next + 1);
        lemma_import_returns_allocs(abi, symbol, tys, (n - 1) as nat, next);
        lemma_import_return_allocs(abi, symbol, tys[n - 1], out, before.next + 1);
        lemma_allocs_add(before.instr, this.instr, this.instr.len());
    }
}

/// Whether the pointers of the given buffers are slots with bindings from
/// `low` up to `high`, each binding above the one before.
pub open spec fn ascending(buffers: Seq<Buffer>, low: nat, high: nat) -> bool {
    &&& forall|i: int|
        0 <= i < buffers.len() ==> low <= (#[trigger] buffers[i]).ptr.binding < high
    &&& forall|i: int, j: int|
        0 <= i < j < buffers.len() ==> (#[trigger] buffers[i]).ptr.binding < (
        #[trigger] buffers[j]).ptr.binding
}

/// Buffers with ascending pointers followed by buffers with ascending
/// pointers above them have ascending pointers.
pub proof fn lemma_ascending_add(a: Seq<Buffer>, b: Seq<Buffer>, low: nat, mid: nat, high: nat)
    requires
        low <= mid <= high,
        ascending(a, low, mid),
        ascending(b, mid, high),
    ensures
        ascending(a + b, low, high),
{
    assert forall|i: int| 0 <= i < (a + b).len() implies low <= (#[trigger] (a + b)[i]).ptr.binding
        < high by {
        if i < a.len() {
            assert((a + b)[i] == a[i]);
        } else {
            assert((a + b)[i] == b[i - a.len()]);
        }
    }
    assert forall|i: int, j: int| 0 <= i < j < (a + b).len() implies (#[trigger] (a
        + b)[i]).ptr.binding < (#[trigger] (a + b)[j]).ptr.binding by {
        if j < a.len() {
            assert((a + b)[i] == a[i] && (a + b)[j] == a[j]);
        } else if i < a.len() {
            assert((a + b)[i] == a[i] && (a + b)[j] == b[j - a.len()]);
        } else {
            assert((a + b)[i] == b[i - a.len()] && (a + b)[j] == b[j - a.len()]);
        }
    }
}

/// The temporary buffers of one argument have fresh pointers, each later
/// than the one before.
pub proof fn lemma_import_arg_fresh(abi: Abi, arg: VarView, next: nat)
    ensures
        ({
            let lowered = spec_import_arg(abi, arg, next);
            &&& next <= lowered.next
            &&& ascending(allocs(lowered.instr, lowered.instr.len()), next, lowered.next)
        }),
    decreases arg.ty,
{
    let lowered = spec_import_arg(abi, arg, next);
    match arg.ty {
        AbiTypeView::Option(ty) => {
            lemma_import_arg_fresh(abi, VarView { binding: next + 1, ty: *ty }, next + 2);
            lemma_allocs_one(lowered.instr[0]);
            assert(lowered.instr =~= seq![lowered.instr[0]]);
        },
        AbiTypeView::RefStr | AbiTypeView::RefSlice(_) => {
            lemma_allocs_two(lowered.instr[0], lowered.instr[1]);
            assert(lowered.instr =~= seq![lowered.instr[0], lowered.instr[1]]);
            assert(Seq::<Buffer>::empty() + step_allocs(lowered.instr[1]) =~= step_allocs(
                lowered.instr[1],
            ));
        },
        AbiTypeView::Result(_) | AbiTypeView::Tuple(_) => {},
        _ => {
            lemma_allocs_one(lowered.instr[0]);
            assert(lowered.instr =~= seq![lowered.instr[0]]);
        },
    }
}

/// The temporary buffers of a list of arguments have fresh pointers, each
/// later than the one before.
pub proof fn lemma_import_args_fresh(
    abi: Abi,
    args: Seq<(Seq<char>, AbiTypeView)>,
    n: nat,
    next: nat,
)
    ensures
        ({
            let lowered = spec_import_args(abi, args, n, next);
            &&& next <= lowered.next
            &&& ascending(allocs(lowered.instr, lowered.instr.len()), next, lowered.next)
        }),
    decreases n,
{
    if n == 0 || n > args.len() {
    } else {
        let before = spec_import_args(abi, args, (n - 1) as nat, next);
        let arg = VarView { binding: before.next, ty: args[n - 1].1 };
        let this = spec_import_arg(abi, arg, before.next + 1);
        lemma_import_args_fresh(abi, args, (n - 1) as nat, next);
        lemma_import_arg_fresh(abi, arg, before.next + 1);
        lemma_allocs_add(before.instr, this.instr, this.instr.len());
        let a = allocs(before.instr, before.instr.len());
        let b = allocs(this.instr, this.instr.len());
        assert(ascending(b, before.next, this.next));
        lemma_ascending_add(a, b, next, before.next, this.next);
    }
}

/// A program whose steps allocate nothing allocates nothing.
pub proof fn lemma_allocs_none(instr: Seq<InstrView>, n: nat)
    requires
        n <= instr.len(),
        forall|i: int| 0 <= i < n ==> step_allocs(#[trigger] instr[i]) == Seq::<Buffer>::empty(),
    ensures
        allocs(instr, n) == Seq::<Buffer>::empty(),
    decreases n,
{
    if n > 0 {
        lemma_allocs_none(instr, (n - 1) as nat);
    }
}

/// The steps that free the temporary buffers of the arguments of a
/// function on its import side.
pub open spec fn import_cleanup(abi: Abi, f: AbiFunctionView) -> Seq<InstrView> {
    let abi_args = spec_abi_args(f);
    spec_import_args(abi, abi_args, abi_args.len(), spec_import_receiver(abi, f.ty).next).cleanup
}

/// Allocation symmetry: the import program of a function ends with the
/// steps of [`import_cleanup`] and a return. Those steps do nothing but
/// free, and they free exactly the temporary buffers that the program
/// allocates, in the order of allocation, with the size and alignment
/// each was allocated with. The buffers are distinct, so each is freed
/// once. The steps stand after the lifting of the result, so no buffer is
/// freed before it was read.
pub proof fn temporaries_freed(abi: Abi, f: AbiFunctionView)
    ensures
        ({
            let program = spec_import(abi, f).instr;
            let cleanup = import_cleanup(abi, f);
            let end = program.len() - 1;
            &&& cleanup.len() <= end
            &&& (program[end] is ReturnValue || program[end] is ReturnVoid)
            &&& program.subrange(end - cleanup.len(), end) == cleanup
            &&& only_frees(cleanup)
            &&& frees(cleanup, cleanup.len()) == allocs(program, program.len())
            &&& forall|i: int, j: int|
                0 <= i < j < allocs(program, program.len()).len() ==> (#[trigger] allocs(
                    program,
                    program.len(),
                )[i]).ptr != (#[trigger] allocs(program, program.len())[j]).ptr
        }),
{
    let program = spec_import(abi, f).instr;
    let cleanup = import_cleanup(abi, f);
    let symbol = f.symbol();
    let receiver = spec_import_receiver(abi, f.ty);
    let abi_args = spec_abi_args(f);
    let args = spec_import_args(abi, abi_args, abi_args.len(), receiver.next);
    let ffi_args = receiver.slots + args.slots;
    let define: Seq<InstrView> = if ffi_args.len() > 0 {
        seq![InstrView::DefineArgs(ffi_args)]
    } else {
        Seq::empty()
    };
    let abi_ret = spec_abi_ret(f.ret);
    let call = spec_import_call(abi, symbol, abi_ret, ffi_args, args.next, args.cleanup);
    let none = Seq::<Buffer>::empty();
    lemma_import_args_cleanup(abi, abi_args, abi_args.len(), receiver.next);
    // what stands before the call
    let front = args.binds + define + receiver.instr;
    lemma_allocs_none(define, define.len());
    lemma_allocs_none(receiver.instr, receiver.instr.len());
    lemma_allocs_add(args.binds, define, define.len());
    lemma_allocs_add(args.binds + define, receiver.instr, receiver.instr.len());
    lemma_allocs_add(front, args.instr, args.instr.len());
    assert(allocs(front, front.len()) =~= none);
    assert(allocs(front + args.instr, (front + args.instr).len()) =~= allocs(
        args.instr,
        args.instr.len(),
    ));
    // the call and what follows it
    lemma_allocs_none(cleanup, cleanup.len());
    match abi_ret {
        Some(ty) => {
            let ret = VarView { binding: args.next, ty };
            let out = VarView { binding: args.next + 1, ty };
            let lifted = spec_import_return(abi, symbol, ty, out, args.next + 2);
            let start = seq![
                InstrView::Call(symbol, Some(ret), ffi_args),
                InstrView::BindRets(ret, lifted.slots),
            ];
            let last = seq![InstrView::ReturnValue(out)];
            lemma_import_return_allocs(abi, symbol, ty, out, args.next + 2);
            lemma_allocs_none(start, 2);
            lemma_allocs_none(last, 1);
            lemma_allocs_add(start, lifted.instr, lifted.instr.len());
            lemma_allocs_add(start + lifted.instr, cleanup, cleanup.len());
            lemma_allocs_add(start + lifted.instr + cleanup, last, 1);
            assert(call.instr == start + lifted.instr + cleanup + last);
            assert(allocs(call.instr, call.instr.len()) =~= none);
            assert(program.subrange(program.len() - 1 - cleanup.len(), program.len() - 1)
                =~= cleanup);
        },
        None => {
            let start = seq![InstrView::Call(symbol, None, ffi_args)];
            let last = seq![InstrView::ReturnVoid];
            lemma_allocs_none(start, 1);
            lemma_allocs_none(last, 1);
            lemma_allocs_add(start, cleanup, cleanup.len());
            lemma_allocs_add(start + cleanup, last, 1);
            assert(call.instr == start + cleanup + last);
            assert(allocs(call.instr, call.instr.len()) =~= none);
            assert(program.subrange(program.len() - 1 - cleanup.len(), program.len() - 1)
                =~= cleanup);
        },
    }
    lemma_allocs_add(front + args.instr, call.instr, call.instr.len());
    assert(program == front + args.instr + call.instr);
    assert(allocs(args.instr, args.instr.len()) + none =~= allocs(args.instr, args.instr.len()));
    lemma_import_args_fresh(abi, abi_args, abi_args.len(), receiver.next);
    assert(allocs(program, program.len()) == allocs(args.instr, args.instr.len()));
}

impl AbiTypeView {
    /// The number of temporary buffers that lowering an argument of the
    /// type allocates: one for borrowed text and for a borrowed slice, also
    /// where they are optional.
    pub open spec fn temporaries(self) -> nat
        decreases self,
    {
        match self {
            AbiTypeView::RefStr | AbiTypeView::RefSlice(_) => 1,
            AbiTypeView::Option(ty) => ty.temporaries(),
            _ => 0,
        }
    }
}

/// The number of temporary buffers that lowering the first `n` of the
/// given arguments allocates.
pub open spec fn temporaries_of(args: Seq<(Seq<char>, AbiTypeView)>, n: nat) -> nat
    decreases n,
{
    if n == 0 || n > args.len() {
        0
    } else {
        temporaries_of(args, (n - 1) as nat) + args[n - 1].1.temporaries()
    }
}

/// Lowering an argument frees as many buffers as
/// [`AbiTypeView::temporaries`] counts.
pub proof fn lemma_import_arg_temporaries(abi: Abi, arg: VarView, next: nat)
    ensures
        spec_import_arg(abi, arg, next).cleanup.len() == arg.ty.temporaries(),
        arg.ty.temporaries() <= 1,
    decreases arg.ty,
{
    match arg.ty {
        AbiTypeView::Option(ty) => {
            lemma_import_arg_temporaries(abi, VarView { binding: next + 1, ty: *ty }, next + 2);
        },
        _ => {},
    }
}

/// Lowering a list of arguments frees as many buffers as
/// [`temporaries_of`] counts, at most one for each argument.
pub proof fn lemma_import_args_temporaries(
    abi: Abi,
    args: Seq<(Seq<char>, AbiTypeView)>,
    n: nat,
    next: nat,
)
    ensures
        spec_import_args(abi, args, n, next).cleanup.len() == temporaries_of(args, n),
        temporaries_of(args, n) <= n,
    decreases n,
{
    if n == 0 || n > args.len() {
    } else {
        let before = spec_import_args(abi, args, (n - 1) as nat, next);
        lemma_import_args_temporaries(abi, args, (n - 1) as nat, next);
        lemma_import_arg_temporaries(
            abi,
            VarView { binding: before.next, ty: args[n - 1].1 },
            before.next + 1,
        );
    }
}

impl AbiType {
    /// Counts the temporary buffers that lowering an argument of the type
    /// allocates.
    pub fn temporaries(&self) -> (count: usize)
        ensures
            count == self@.temporaries(),
            count <= 1,
        decreases self,
    {
        match self {
            AbiType::RefStr | AbiType::RefSlice(_) => 1,
            AbiType::Option(ty) => ty.temporaries(),
            _ => 0,
        }
    }
}

impl Abi {
    /// Counts the steps at the end of the import program of a function
    /// that free the temporary buffers of its arguments: they are the
    /// steps before the final return.
    pub fn cleanup_len(self, func: &AbiFunction) -> (len: usize)
        ensures
            len == import_cleanup(self, func@).len(),
    {
        let abi_args = Abi::abi_args(func);
        let ghost args = spec_abi_args(func@);
        proof {
            lemma_import_args_temporaries(
                self,
                args,
                args.len(),
                spec_import_receiver(self, func@.ty).next,
            );
        }
        let mut count: usize = 0;
        let mut i: usize = 0;
        while i < abi_args.len()
            invariant
                i <= abi_args.len(),
                args == abi_args.deep_view(),
                count == temporaries_of(args, i as nat),
                count <= i,
            decreases abi_args.len() - i,
        {
            assert(args[i as int].1 == abi_args[i as int].1@);
            count = count + abi_args[i].1.temporaries();
            i += 1;
        }
        count
    }
}

} // verus!
