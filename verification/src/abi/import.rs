//! Import lowering: the program by which a caller invokes a flat symbol.

use crate::abi::{
    clone_vars, lemma_tuple_view, num_var, push_var, raw_slot, Abi,
    AbiFunction, AbiFunctionView, AbiType, AbiTypeView, FunctionType, FunctionTypeView, NumType,
    Return, ReturnView, Var, VarGen, VarView,
};
use crate::naming::{
    destructor_name, destructor_symbol, future_drop_name, future_drop_symbol, future_poll_name,
    future_poll_symbol, indexed, indexed_name, stream_drop_name, stream_drop_symbol,
    stream_poll_name, stream_poll_symbol,
};
use vstd::prelude::*;
use vstd::string::StringExecFns;

verus! {

/// The import side of one function: the flat symbol, the host-level
/// arguments, the raw parameters, the program that makes the call, the raw
/// return and the host-level result.
#[derive(Debug, PartialEq, Eq)]
pub struct Import {
    pub symbol: String,
    pub abi_args: Vec<(String, AbiType)>,
    pub ffi_args: Vec<Var>,
    pub instr: Vec<Instr>,
    pub ffi_ret: Return,
    pub abi_ret: Option<AbiType>,
}

/// The value of an [`Import`].
pub struct ImportView {
    pub symbol: Seq<char>,
    pub abi_args: Seq<(Seq<char>, AbiTypeView)>,
    pub ffi_args: Seq<VarView>,
    pub instr: Seq<InstrView>,
    pub ffi_ret: ReturnView,
    pub abi_ret: Option<AbiTypeView>,
}

impl View for Import {
    type V = ImportView;

    open spec fn view(&self) -> ImportView {
        ImportView {
            symbol: self.symbol@,
            abi_args: self.abi_args.deep_view(),
            ffi_args: self.ffi_args.deep_view(),
            instr: self.instr.deep_view(),
            ffi_ret: self.ffi_ret@,
            abi_ret: self.abi_ret.deep_view(),
        }
    }
}

impl DeepView for Import {
    type V = ImportView;

    open spec fn deep_view(&self) -> ImportView {
        self.view()
    }
}

/// One step of an import program. A `Lower` step takes a host value apart
/// into raw slots, a `Lift` step builds a host value from raw slots, and
/// `Deallocate` frees a buffer of `cap` elements of the given size and
/// alignment.
#[derive(Debug, PartialEq, Eq)]
pub enum Instr {
    BindArg(String, Var),
    Deallocate(Var, Var, usize, usize),
    LiftNum(Var, Var, NumType),
    LowerNum(Var, Var, NumType),
    LiftNumFromU32Tuple(Var, Var, Var, NumType),
    LiftBool(Var, Var),
    LowerBool(Var, Var),
    LiftString(Var, Var, Var),
    LowerString(Var, Var, Var, Var, usize, usize),
    LiftVec(Var, Var, Var, NumType),
    LowerVec(Var, Var, Var, Var, NumType, usize, usize),
    HandleNull(Var),
    LowerOption(Var, Var, Var, Vec<Instr>),
    HandleError(Var, Var, Var, Var),
    BorrowSelf(Var),
    BorrowObject(Var, Var),
    MoveObject(Var, Var),
    LiftObject(String, Var, String, Var),
    BorrowFuture(Var, Var),
    MoveFuture(Var, Var),
    LiftFuture(Var, String, String, Var),
    BorrowStream(Var, Var),
    MoveStream(Var, Var),
    LiftStream(Var, String, String, Var),
    LiftTuple(Vec<Var>, Var),
    DefineArgs(Vec<Var>),
    Call(String, Option<Var>, Vec<Var>),
    BindRets(Var, Vec<Var>),
    ReturnValue(Var),
    ReturnVoid,
}

/// The value of an [`Instr`].
pub enum InstrView {
    BindArg(Seq<char>, VarView),
    Deallocate(VarView, VarView, nat, nat),
    LiftNum(VarView, VarView, NumType),
    LowerNum(VarView, VarView, NumType),
    LiftNumFromU32Tuple(VarView, VarView, VarView, NumType),
    LiftBool(VarView, VarView),
    LowerBool(VarView, VarView),
    LiftString(VarView, VarView, VarView),
    LowerString(VarView, VarView, VarView, VarView, nat, nat),
    LiftVec(VarView, VarView, VarView, NumType),
    LowerVec(VarView, VarView, VarView, VarView, NumType, nat, nat),
    HandleNull(VarView),
    LowerOption(VarView, VarView, VarView, Seq<InstrView>),
    HandleError(VarView, VarView, VarView, VarView),
    BorrowSelf(VarView),
    BorrowObject(VarView, VarView),
    MoveObject(VarView, VarView),
    LiftObject(Seq<char>, VarView, Seq<char>, VarView),
    BorrowFuture(VarView, VarView),
    MoveFuture(VarView, VarView),
    LiftFuture(VarView, Seq<char>, Seq<char>, VarView),
    BorrowStream(VarView, VarView),
    MoveStream(VarView, VarView),
    LiftStream(VarView, Seq<char>, Seq<char>, VarView),
    LiftTuple(Seq<VarView>, VarView),
    DefineArgs(Seq<VarView>),
    Call(Seq<char>, Option<VarView>, Seq<VarView>),
    BindRets(VarView, Seq<VarView>),
    ReturnValue(VarView),
    ReturnVoid,
}

impl Instr {
    /// The value of the step, computed by recursion on its structure.
    #[verifier::opaque]
    pub open spec fn model(&self) -> InstrView
        decreases self,
    {
        match self {
            Instr::BindArg(a, b) => InstrView::BindArg(a@, b@),
            Instr::Deallocate(a, b, c, d) => InstrView::Deallocate(a@, b@, *c as nat, *d as nat),
            Instr::LiftNum(a, b, c) => InstrView::LiftNum(a@, b@, *c),
            Instr::LowerNum(a, b, c) => InstrView::LowerNum(a@, b@, *c),
            Instr::LiftNumFromU32Tuple(a, b, c, d) => InstrView::LiftNumFromU32Tuple(
                a@,
                b@,
                c@,
                *d,
            ),
            Instr::LiftBool(a, b) => InstrView::LiftBool(a@, b@),
            Instr::LowerBool(a, b) => InstrView::LowerBool(a@, b@),
            Instr::LiftString(a, b, c) => InstrView::LiftString(a@, b@, c@),
            Instr::LowerString(a, b, c, d, e, f) => InstrView::LowerString(
                a@,
                b@,
                c@,
                d@,
                *e as nat,
                *f as nat,
            ),
            Instr::LiftVec(a, b, c, d) => InstrView::LiftVec(a@, b@, c@, *d),
            Instr::LowerVec(a, b, c, d, e, f, g) => InstrView::LowerVec(
                a@,
                b@,
                c@,
                d@,
                *e,
                *f as nat,
                *g as nat,
            ),
            Instr::HandleNull(a) => InstrView::HandleNull(a@),
            Instr::LowerOption(a, b, c, d) => InstrView::LowerOption(a@, b@, c@, Self::models(d@)),
            Instr::HandleError(a, b, c, d) => InstrView::HandleError(a@, b@, c@, d@),
            Instr::BorrowSelf(a) => InstrView::BorrowSelf(a@),
            Instr::BorrowObject(a, b) => InstrView::BorrowObject(a@, b@),
            Instr::MoveObject(a, b) => InstrView::MoveObject(a@, b@),
            Instr::LiftObject(a, b, c, d) => InstrView::LiftObject(a@, b@, c@, d@),
            Instr::BorrowFuture(a, b) => InstrView::BorrowFuture(a@, b@),
            Instr::MoveFuture(a, b) => InstrView::MoveFuture(a@, b@),
            Instr::LiftFuture(a, b, c, d) => InstrView::LiftFuture(a@, b@, c@, d@),
            Instr::BorrowStream(a, b) => InstrView::BorrowStream(a@, b@),
            Instr::MoveStream(a, b) => InstrView::MoveStream(a@, b@),
            Instr::LiftStream(a, b, c, d) => InstrView::LiftStream(a@, b@, c@, d@),
            Instr::LiftTuple(a, b) => InstrView::LiftTuple(a.deep_view(), b@),
            Instr::DefineArgs(a) => InstrView::DefineArgs(a.deep_view()),
            Instr::Call(a, b, c) => InstrView::Call(a@, b.deep_view(), c.deep_view()),
            Instr::BindRets(a, b) => InstrView::BindRets(a@, b.deep_view()),
            Instr::ReturnValue(a) => InstrView::ReturnValue(a@),
            Instr::ReturnVoid => InstrView::ReturnVoid,
        }
    }

    /// The values of a list of steps.
    pub open spec fn models(instr: Seq<Instr>) -> Seq<InstrView>
        decreases instr,
    {
        Seq::new(
            instr.len(),
            |i: int|
                if 0 <= i < instr.len() {
                    instr[i].model()
                } else {
                    InstrView::ReturnVoid
                },
        )
    }
}

impl View for Instr {
    type V = InstrView;

    open spec fn view(&self) -> InstrView {
        self.model()
    }
}

impl DeepView for Instr {
    type V = InstrView;

    open spec fn deep_view(&self) -> InstrView {
        self.view()
    }
}

/// The nested program of a step has the value of the list that holds it.
pub proof fn lemma_models_deep_view(instr: Vec<Instr>)
    ensures
        Instr::models(instr@) == instr.deep_view(),
{
    reveal(Instr::model);
    assert(Instr::models(instr@) =~= instr.deep_view());
}

/// Appends a step to a program.
pub fn emit(instr: &mut Vec<Instr>, step: Instr)
    ensures
        final(instr).deep_view() == old(instr).deep_view() + seq![step@],
{
    instr.push(step);
    assert(instr.deep_view() =~= old(instr).deep_view() + seq![step@]);
}

/// Moves the steps of one program to the end of another.
pub fn append_instr(instr: &mut Vec<Instr>, tail: Vec<Instr>)
    ensures
        final(instr).deep_view() == old(instr).deep_view() + tail.deep_view(),
{
    let mut rest = tail;
    instr.append(&mut rest);
    assert(instr.deep_view() =~= old(instr).deep_view() + tail.deep_view());
}

/// What lowering one argument gives: the raw slots, the steps before the
/// call, the steps that free its temporary buffers after the call, and the
/// binding that the next fresh slot gets.
pub struct LoweredArg {
    pub next: nat,
    pub slots: Seq<VarView>,
    pub instr: Seq<InstrView>,
    pub cleanup: Seq<InstrView>,
}

/// What lowering a list of arguments gives: as [`LoweredArg`], with the
/// steps that bind each argument to its host slot.
pub struct LoweredArgs {
    pub next: nat,
    pub binds: Seq<InstrView>,
    pub slots: Seq<VarView>,
    pub instr: Seq<InstrView>,
    pub cleanup: Seq<InstrView>,
}

/// What lifting one returned value gives: the raw slots that carry it, the
/// steps after the call, and the binding that the next fresh slot gets.
pub struct Lifted {
    pub next: nat,
    pub slots: Seq<VarView>,
    pub instr: Seq<InstrView>,
}

/// What lifting a list of returned values gives: as [`Lifted`], with the
/// host slot of each value.
pub struct LiftedList {
    pub next: nat,
    pub vars: Seq<VarView>,
    pub slots: Seq<VarView>,
    pub instr: Seq<InstrView>,
}

impl AbiTypeView {
    /// Whether the calling side can pass a value of the type: neither a
    /// `Result` nor a tuple, nor an optional one of them.
    pub open spec fn import_arg_supported(self) -> bool
        decreases self,
    {
        match self {
            AbiTypeView::Result(_) => false,
            AbiTypeView::Tuple(_) => false,
            AbiTypeView::Option(ty) => ty.import_arg_supported(),
            _ => true,
        }
    }

    /// Whether the calling side can take a returned value of the type: no
    /// borrowed handle, nor a wrapper or tuple of one.
    pub open spec fn import_ret_supported(self) -> bool
        decreases self, 0nat,
    {
        match self {
            AbiTypeView::RefObject(_) => false,
            AbiTypeView::RefFuture(_) => false,
            AbiTypeView::RefStream(_) => false,
            AbiTypeView::Option(ty) => ty.import_ret_supported(),
            AbiTypeView::Result(ty) => ty.import_ret_supported(),
            AbiTypeView::Tuple(tys) => Self::import_rets_supported(tys, tys.len()),
            _ => true,
        }
    }

    /// Whether the calling side can take each of the first `n` types as a
    /// returned value.
    pub open spec fn import_rets_supported(tys: Seq<AbiTypeView>, n: nat) -> bool
        decreases tys, n,
    {
        if n == 0 || n > tys.len() {
            true
        } else {
            Self::import_rets_supported(tys, (n - 1) as nat) && tys[n - 1].import_ret_supported()
        }
    }
}

/// The lowering of one argument from the host slot `arg`, where `next` is
/// the first free binding. The raw slots are given in the order of
/// [`AbiTypeView::arg_shape`]. Text and a vector are copied into a buffer
/// that is allocated with the size and alignment of their elements; for
/// the borrowed forms the capacity is no raw slot, and one step after the
/// call frees the buffer with the same size and alignment. A borrowed
/// handle is borrowed, an owned one is moved. An optional value lowers its
/// payload in a nested program.
pub open spec fn spec_import_arg(abi: Abi, arg: VarView, next: nat) -> LoweredArg
    decreases arg.ty,
{
    let a = num_var(next, abi.iptr());
    let b = num_var(next + 1, abi.uptr());
    let c = num_var(next + 2, abi.uptr());
    let none = Seq::<InstrView>::empty();
    match arg.ty {
        AbiTypeView::Num(num) => {
            let out = num_var(next, num);
            LoweredArg {
                next: next + 1,
                slots: seq![out],
                instr: seq![InstrView::LowerNum(arg, out, num)],
                cleanup: none,
            }
        },
        AbiTypeView::Isize => LoweredArg {
            next: next + 1,
            slots: seq![a],
            instr: seq![InstrView::LowerNum(arg, a, abi.iptr())],
            cleanup: none,
        },
        AbiTypeView::Usize => {
            let out = num_var(next, abi.uptr());
            LoweredArg {
                next: next + 1,
                slots: seq![out],
                instr: seq![InstrView::LowerNum(arg, out, abi.uptr())],
                cleanup: none,
            }
        },
        AbiTypeView::Bool => {
            let out = num_var(next, NumType::U8);
            LoweredArg {
                next: next + 1,
                slots: seq![out],
                instr: seq![InstrView::LowerBool(arg, out)],
                cleanup: none,
            }
        },
        AbiTypeView::RefStr => LoweredArg {
            next: next + 3,
            slots: seq![a, b],
            instr: seq![
                InstrView::DefineArgs(seq![c]),
                InstrView::LowerString(arg, a, b, c, 1, 1),
            ],
            cleanup: seq![InstrView::Deallocate(a, c, 1, 1)],
        },
        AbiTypeView::String => LoweredArg {
            next: next + 3,
            slots: seq![a, b, c],
            instr: seq![InstrView::LowerString(arg, a, b, c, 1, 1)],
            cleanup: none,
        },
        AbiTypeView::RefSlice(ty) => LoweredArg {
            next: next + 3,
            slots: seq![a, b],
            instr: seq![
                InstrView::DefineArgs(seq![c]),
                InstrView::LowerVec(arg, a, b, c, ty, abi.slot_size(ty), abi.slot_size(ty)),
            ],
            cleanup: seq![InstrView::Deallocate(a, c, abi.slot_size(ty), abi.slot_size(ty))],
        },
        AbiTypeView::Vec(ty) => LoweredArg {
            next: next + 3,
            slots: seq![a, b, c],
            instr: seq![
                InstrView::LowerVec(arg, a, b, c, ty, abi.slot_size(ty), abi.slot_size(ty)),
            ],
            cleanup: none,
        },
        AbiTypeView::RefObject(_) => LoweredArg {
            next: next + 1,
            slots: seq![a],
            instr: seq![InstrView::BorrowObject(arg, a)],
            cleanup: none,
        },
        AbiTypeView::Object(_) => LoweredArg {
            next: next + 1,
            slots: seq![a],
            instr: seq![InstrView::MoveObject(arg, a)],
            cleanup: none,
        },
        AbiTypeView::Option(ty) => {
            let var = num_var(next, NumType::U8);
            let some = VarView { binding: next + 1, ty: *ty };
            let inner = spec_import_arg(abi, some, next + 2);
            LoweredArg {
                next: inner.next,
                slots: seq![var] + inner.slots,
                instr: seq![InstrView::LowerOption(arg, var, some, inner.instr)],
                cleanup: inner.cleanup,
            }
        },
        AbiTypeView::Result(_) => LoweredArg {
            next,
            slots: Seq::empty(),
            instr: none,
            cleanup: none,
        },
        AbiTypeView::RefFuture(_) => LoweredArg {
            next: next + 1,
            slots: seq![a],
            instr: seq![InstrView::BorrowFuture(arg, a)],
            cleanup: none,
        },
        AbiTypeView::Future(_) => LoweredArg {
            next: next + 1,
            slots: seq![a],
            instr: seq![InstrView::MoveFuture(arg, a)],
            cleanup: none,
        },
        AbiTypeView::RefStream(_) => LoweredArg {
            next: next + 1,
            slots: seq![a],
            instr: seq![InstrView::BorrowStream(arg, a)],
            cleanup: none,
        },
        AbiTypeView::Stream(_) => LoweredArg {
            next: next + 1,
            slots: seq![a],
            instr: seq![InstrView::MoveStream(arg, a)],
            cleanup: none,
        },
        AbiTypeView::Tuple(_) => LoweredArg {
            next,
            slots: Seq::empty(),
            instr: none,
            cleanup: none,
        },
    }
}

/// The lowering of the first `n` of the given named arguments: each is
/// bound to a fresh host slot and then lowered from it, in order.
pub open spec fn spec_import_args(
    abi: Abi,
    args: Seq<(Seq<char>, AbiTypeView)>,
    n: nat,
    next: nat,
) -> LoweredArgs
    decreases n,
{
    if n == 0 || n > args.len() {
        LoweredArgs {
            next,
            binds: Seq::empty(),
            slots: Seq::empty(),
            instr: Seq::empty(),
            cleanup: Seq::empty(),
        }
    } else {
        let before = spec_import_args(abi, args, (n - 1) as nat, next);
        let arg = VarView { binding: before.next, ty: args[n - 1].1 };
        let this = spec_import_arg(abi, arg, before.next + 1);
        LoweredArgs {
            next: this.next,
            binds: before.binds.push(InstrView::BindArg(args[n - 1].0, arg)),
            slots: before.slots + this.slots,
            instr: before.instr + this.instr,
            cleanup: before.cleanup + this.cleanup,
        }
    }
}

/// The lifting of owned text or an owned vector into the host slot `out`:
/// the value is copied out of the buffer that pointer, length and capacity
/// describe, and the buffer is then freed with the size and alignment of
/// its elements.
pub open spec fn spec_import_owned(abi: Abi, ty: AbiTypeView, out: VarView, next: nat) -> Lifted {
    let ptr = num_var(next, abi.iptr());
    let len = num_var(next + 1, abi.uptr());
    let cap = num_var(next + 2, abi.uptr());
    let instr = match ty {
        AbiTypeView::Vec(elem) => seq![
            InstrView::LiftVec(ptr, len, out, elem),
            InstrView::Deallocate(ptr, cap, abi.slot_size(elem), abi.slot_size(elem)),
        ],
        _ => seq![InstrView::LiftString(ptr, len, out), InstrView::Deallocate(ptr, cap, 1, 1)],
    };
    Lifted { next: next + 3, slots: seq![ptr, len, cap], instr }
}

/// The lifting of a returned value of type `ty` into the host slot `out`
/// by the caller of `symbol`, where `next` is the first free binding. The
/// raw slots are taken in the order of [`AbiTypeView::ret_shape`]. Owned
/// text and an owned vector are copied out of their buffer, which is then
/// freed with the size and alignment of its elements. An object comes with
/// the symbol of its destructor, a future or stream with the symbols of
/// its poll function and its destructor. An absent optional value and an
/// error end the program at their discriminant; what follows lifts the
/// payload into the same host slot.
pub open spec fn spec_import_return(
    abi: Abi,
    symbol: Seq<char>,
    ty: AbiTypeView,
    out: VarView,
    next: nat,
) -> Lifted
    decreases ty, 0nat,
{
    let a = num_var(next, abi.iptr());
    let b = num_var(next + 1, abi.uptr());
    let c = num_var(next + 2, abi.uptr());
    match ty {
        AbiTypeView::Num(num) => if AbiTypeView::split_num(abi, num) {
            let low = num_var(next, NumType::U32);
            let high = num_var(next + 1, NumType::U32);
            Lifted {
                next: next + 2,
                slots: seq![low, high],
                instr: seq![InstrView::LiftNumFromU32Tuple(low, high, out, num)],
            }
        } else {
            let var = num_var(next, num);
            Lifted {
                next: next + 1,
                slots: seq![var],
                instr: seq![InstrView::LiftNum(var, out, num)],
            }
        },
        AbiTypeView::Isize => Lifted {
            next: next + 1,
            slots: seq![a],
            instr: seq![InstrView::LiftNum(a, out, abi.iptr())],
        },
        AbiTypeView::Usize => {
            let var = num_var(next, abi.uptr());
            Lifted {
                next: next + 1,
                slots: seq![var],
                instr: seq![InstrView::LiftNum(var, out, abi.uptr())],
            }
        },
        AbiTypeView::Bool => {
            let var = num_var(next, NumType::U8);
            Lifted { next: next + 1, slots: seq![var], instr: seq![InstrView::LiftBool(var, out)] }
        },
        AbiTypeView::RefStr => Lifted {
            next: next + 2,
            slots: seq![a, b],
            instr: seq![InstrView::LiftString(a, b, out)],
        },
        AbiTypeView::String => spec_import_owned(abi, ty, out, next),
        AbiTypeView::RefSlice(elem) => Lifted {
            next: next + 2,
            slots: seq![a, b],
            instr: seq![InstrView::LiftVec(a, b, out, elem)],
        },
        AbiTypeView::Vec(_) => spec_import_owned(abi, ty, out, next),
        AbiTypeView::RefObject(_) => Lifted { next, slots: Seq::empty(), instr: Seq::empty() },
        AbiTypeView::Object(object) => Lifted {
            next: next + 1,
            slots: seq![a],
            instr: seq![InstrView::LiftObject(object, a, destructor_symbol(object), out)],
        },
        AbiTypeView::Option(inner) => {
            let var = num_var(next, NumType::U8);
            let rest = spec_import_return(abi, symbol, *inner, out, next + 1);
            Lifted {
                next: rest.next,
                slots: seq![var] + rest.slots,
                instr: seq![InstrView::HandleNull(var)] + rest.instr,
            }
        },
        AbiTypeView::Result(inner) => {
            let var = num_var(next, NumType::U8);
            let ptr = num_var(next + 1, abi.iptr());
            let len = num_var(next + 2, abi.uptr());
            let cap = num_var(next + 3, abi.uptr());
            let rest = spec_import_return(abi, symbol, *inner, out, next + 4);
            Lifted {
                next: rest.next,
                slots: seq![var, ptr, len, cap] + rest.slots,
                instr: seq![InstrView::HandleError(var, ptr, len, cap)] + rest.instr,
            }
        },
        AbiTypeView::RefFuture(_) => Lifted { next, slots: Seq::empty(), instr: Seq::empty() },
        AbiTypeView::Future(_) => Lifted {
            next: next + 1,
            slots: seq![a],
            instr: seq![
                InstrView::LiftFuture(
                    a,
                    future_poll_symbol(symbol),
                    future_drop_symbol(symbol),
                    out,
                ),
            ],
        },
        AbiTypeView::RefStream(_) => Lifted { next, slots: Seq::empty(), instr: Seq::empty() },
        AbiTypeView::Stream(_) => Lifted {
            next: next + 1,
            slots: seq![a],
            instr: seq![
                InstrView::LiftStream(
                    a,
                    stream_poll_symbol(symbol),
                    stream_drop_symbol(symbol),
                    out,
                ),
            ],
        },
        AbiTypeView::Tuple(tys) => {
            let elems = spec_import_returns(abi, symbol, tys, tys.len(), next);
            Lifted {
                next: elems.next,
                slots: elems.slots,
                instr: elems.instr.push(InstrView::LiftTuple(elems.vars, out)),
            }
        },
    }
}

/// The lifting of the first `n` of the given returned values: each gets a
/// fresh host slot and is then lifted into it, in order.
pub open spec fn spec_import_returns(
    abi: Abi,
    symbol: Seq<char>,
    tys: Seq<AbiTypeView>,
    n: nat,
    next: nat,
) -> LiftedList
    decreases tys, n,
{
    if n == 0 || n > tys.len() {
        LiftedList { next, vars: Seq::empty(), slots: Seq::empty(), instr: Seq::empty() }
    } else {
        let before = spec_import_returns(abi, symbol, tys, (n - 1) as nat, next);
        let out = VarView { binding: before.next, ty: tys[n - 1] };
        let this = spec_import_return(abi, symbol, tys[n - 1], out, before.next + 1);
        LiftedList {
            next: this.next,
            vars: before.vars.push(out),
            slots: before.slots + this.slots,
            instr: before.instr + this.instr,
        }
    }
}

/// The host-level arguments that one declared argument stands for: the
/// elements of a tuple, each named by the argument's name and its index,
/// or else the argument itself.
pub open spec fn flatten_arg(arg: (Seq<char>, AbiTypeView)) -> Seq<(Seq<char>, AbiTypeView)> {
    match arg.1 {
        AbiTypeView::Tuple(tys) => Seq::new(tys.len(), |i: int| (indexed(arg.0, i as nat), tys[i])),
        _ => seq![arg],
    }
}

/// The host-level arguments that the first `n` declared arguments stand
/// for.
pub open spec fn flatten_args(args: Seq<(Seq<char>, AbiTypeView)>, n: nat) -> Seq<
    (Seq<char>, AbiTypeView),
>
    decreases n,
{
    if n == 0 || n > args.len() {
        Seq::empty()
    } else {
        flatten_args(args, (n - 1) as nat) + flatten_arg(args[n - 1])
    }
}

/// The host-level arguments of the import side of a function: the boxed
/// receiver of a poll function first, then the declared arguments with
/// tuples taken apart.
pub open spec fn spec_abi_args(f: AbiFunctionView) -> Seq<(Seq<char>, AbiTypeView)> {
    let boxed = if f.ty is PollFuture || f.ty is PollStream {
        seq![("boxed"@, AbiTypeView::Isize)]
    } else {
        Seq::empty()
    };
    boxed + flatten_args(f.args, f.args.len())
}

/// The host-level result of the import side of a function: the declared
/// one, but none for the empty tuple.
pub open spec fn spec_abi_ret(ret: Option<AbiTypeView>) -> Option<AbiTypeView> {
    match ret {
        Some(AbiTypeView::Tuple(tys)) => if tys.len() == 0 {
            None
        } else {
            ret
        },
        _ => ret,
    }
}

/// The lowering of the receiver of a method: its handle is borrowed into
/// raw slot 0. Other functions have none.
pub open spec fn spec_import_receiver(abi: Abi, ty: FunctionTypeView) -> Lifted {
    match ty {
        FunctionTypeView::Method(_) => {
            let receiver = num_var(0, abi.iptr());
            Lifted {
                next: 1,
                slots: seq![receiver],
                instr: seq![InstrView::BorrowSelf(receiver)],
            }
        },
        _ => Lifted { next: 0, slots: Seq::empty(), instr: Seq::empty() },
    }
}

/// The call of the symbol on the raw parameters and what follows it. Where
/// there is a result, the call binds it, the raw return slots are taken
/// from it and lifted, then the temporary buffers of the arguments are
/// freed and the lifted value is returned; where there is none, the
/// buffers are freed and the program returns.
pub open spec fn spec_import_call(
    abi: Abi,
    symbol: Seq<char>,
    abi_ret: Option<AbiTypeView>,
    ffi_args: Seq<VarView>,
    next: nat,
    cleanup: Seq<InstrView>,
) -> Lifted {
    match abi_ret {
        Some(ty) => {
            let ret = VarView { binding: next, ty };
            let out = VarView { binding: next + 1, ty };
            let lifted = spec_import_return(abi, symbol, ty, out, next + 2);
            Lifted {
                next: lifted.next,
                slots: lifted.slots,
                instr: seq![
                    InstrView::Call(symbol, Some(ret), ffi_args),
                    InstrView::BindRets(ret, lifted.slots),
                ] + lifted.instr + cleanup + seq![InstrView::ReturnValue(out)],
            }
        },
        None => Lifted {
            next,
            slots: Seq::empty(),
            instr: seq![InstrView::Call(symbol, None, ffi_args)] + cleanup + seq![
                InstrView::ReturnVoid,
            ],
        },
    }
}

/// The import side of a function. Its program binds each host-level
/// argument to a slot, declares the raw parameters if there are any,
/// borrows the receiver of a method, lowers the arguments in order, and
/// ends as [`spec_import_call`] says.
pub open spec fn spec_import(abi: Abi, f: AbiFunctionView) -> ImportView {
    let symbol = f.symbol();
    let receiver = spec_import_receiver(abi, f.ty);
    let abi_args = spec_abi_args(f);
    let args = spec_import_args(abi, abi_args, abi_args.len(), receiver.next);
    let ffi_args = receiver.slots + args.slots;
    let define = if ffi_args.len() > 0 {
        seq![InstrView::DefineArgs(ffi_args)]
    } else {
        Seq::empty()
    };
    let abi_ret = spec_abi_ret(f.ret);
    let call = spec_import_call(abi, symbol, abi_ret, ffi_args, args.next, args.cleanup);
    ImportView {
        symbol,
        abi_args,
        ffi_args,
        instr: args.binds + define + receiver.instr + args.instr + call.instr,
        ffi_ret: f.ret(call.slots),
        abi_ret,
    }
}

/// The number of slots that the import program of a function uses.
pub open spec fn spec_import_vars(abi: Abi, f: AbiFunctionView) -> nat {
    let receiver = spec_import_receiver(abi, f.ty);
    let abi_args = spec_abi_args(f);
    let args = spec_import_args(abi, abi_args, abi_args.len(), receiver.next);
    spec_import_call(
        abi,
        f.symbol(),
        spec_abi_ret(f.ret),
        receiver.slots + args.slots,
        args.next,
        args.cleanup,
    ).next
}

/// Whether a function can be imported: the calling side can pass each
/// host-level argument and take the result, and the bindings of the
/// program fit in 32 bits.
pub open spec fn importable(abi: Abi, f: AbiFunctionView) -> bool {
    &&& forall|i: int|
        0 <= i < spec_abi_args(f).len() ==> (#[trigger] spec_abi_args(
            f,
        )[i]).1.import_arg_supported()
    &&& spec_abi_ret(f.ret) matches Some(ty) ==> ty.import_ret_supported()
    &&& spec_import_vars(abi, f) <= u32::MAX
}

/// Lowering an argument never gives bindings back.
pub proof fn lemma_import_arg_next(abi: Abi, arg: VarView, next: nat)
    ensures
        spec_import_arg(abi, arg, next).next >= next,
    decreases arg.ty,
{
    match arg.ty {
        AbiTypeView::Option(ty) => {
            lemma_import_arg_next(abi, VarView { binding: next + 1, ty: *ty }, next + 2);
        },
        _ => {},
    }
}

/// Lowering a list of arguments never gives bindings back, and lowering a
/// longer prefix consumes at least as many.
pub proof fn lemma_import_args_next(
    abi: Abi,
    args: Seq<(Seq<char>, AbiTypeView)>,
    n: nat,
    next: nat,
)
    ensures
        spec_import_args(abi, args, n, next).next >= next,
        forall|m: nat|
            m <= n <= args.len() ==> #[trigger] spec_import_args(abi, args, m, next).next
                <= spec_import_args(abi, args, n, next).next,
    decreases n,
{
    if n == 0 || n > args.len() {
    } else {
        let before = spec_import_args(abi, args, (n - 1) as nat, next);
        lemma_import_args_next(abi, args, (n - 1) as nat, next);
        lemma_import_arg_next(
            abi,
            VarView { binding: before.next, ty: args[n - 1].1 },
            before.next + 1,
        );
    }
}

/// Lifting a returned value never gives bindings back.
pub proof fn lemma_import_return_next(
    abi: Abi,
    symbol: Seq<char>,
    ty: AbiTypeView,
    out: VarView,
    next: nat,
)
    ensures
        spec_import_return(abi, symbol, ty, out, next).next >= next,
    decreases ty, 0nat,
{
    match ty {
        AbiTypeView::Option(inner) => {
            lemma_import_return_next(abi, symbol, *inner, out, next + 1);
        },
        AbiTypeView::Result(inner) => {
            lemma_import_return_next(abi, symbol, *inner, out, next + 4);
        },
        AbiTypeView::Tuple(tys) => {
            lemma_import_returns_next(abi, symbol, tys, tys.len(), next);
        },
        _ => {},
    }
}

/// Lifting a list of returned values never gives bindings back, and
/// lifting a longer prefix consumes at least as many.
pub proof fn lemma_import_returns_next(
    abi: Abi,
    symbol: Seq<char>,
    tys: Seq<AbiTypeView>,
    n: nat,
    next: nat,
)
    ensures
        spec_import_returns(abi, symbol, tys, n, next).next >= next,
        forall|m: nat|
            m <= n <= tys.len() ==> #[trigger] spec_import_returns(abi, symbol, tys, m, next).next
                <= spec_import_returns(abi, symbol, tys, n, next).next,
    decreases tys, n,
{
    if n == 0 || n > tys.len() {
    } else {
        let before = spec_import_returns(abi, symbol, tys, (n - 1) as nat, next);
        lemma_import_returns_next(abi, symbol, tys, (n - 1) as nat, next);
        lemma_import_return_next(
            abi,
            symbol,
            tys[n - 1],
            VarView { binding: before.next, ty: tys[n - 1] },
            before.next + 1,
        );
    }
}

/// The call and what follows it never give bindings back.
pub proof fn lemma_import_call_next(
    abi: Abi,
    symbol: Seq<char>,
    abi_ret: Option<AbiTypeView>,
    ffi_args: Seq<VarView>,
    next: nat,
    cleanup: Seq<InstrView>,
)
    ensures
        spec_import_call(abi, symbol, abi_ret, ffi_args, next, cleanup).next >= next,
        abi_ret is Some ==> spec_import_call(abi, symbol, abi_ret, ffi_args, next, cleanup).next
            >= next + 2,
{
    if let Some(ty) = abi_ret {
        lemma_import_return_next(abi, symbol, ty, VarView { binding: next + 1, ty }, next + 2);
    }
}

/// Where a prefix of a list of types can be taken as returned values, each
/// type in it can.
pub proof fn lemma_import_rets_supported(tys: Seq<AbiTypeView>, n: nat, i: int)
    requires
        AbiTypeView::import_rets_supported(tys, n),
        0 <= i < n <= tys.len(),
    ensures
        tys[i].import_ret_supported(),
    decreases n,
{
    if i < n - 1 {
        lemma_import_rets_supported(tys, (n - 1) as nat, i);
    }
}

impl Abi {
    /// Lowers one argument: appends to `ffi_args` the raw slots that carry
    /// it, to `instr` the steps that fill them from the host slot `arg`,
    /// and to `instr_cleanup` the steps that free its temporary buffers.
    #[verifier::rlimit(40)]
    pub fn import_arg(
        self,
        arg: Var,
        gen: &mut VarGen,
        ffi_args: &mut Vec<Var>,
        instr: &mut Vec<Instr>,
        instr_cleanup: &mut Vec<Instr>,
    )
        requires
            arg.ty@.import_arg_supported(),
            spec_import_arg(self, arg@, old(gen)@).next <= u32::MAX,
        ensures
            final(gen)@ == spec_import_arg(self, arg@, old(gen)@).next,
            final(ffi_args).deep_view() == old(ffi_args).deep_view() + spec_import_arg(
                self,
                arg@,
                old(gen)@,
            ).slots,
            final(instr).deep_view() == old(instr).deep_view() + spec_import_arg(
                self,
                arg@,
                old(gen)@,
            ).instr,
            final(instr_cleanup).deep_view() == old(instr_cleanup).deep_view() + spec_import_arg(
                self,
                arg@,
                old(gen)@,
            ).cleanup,
        decreases arg.ty@, 1nat,
    {
        assert(instr_cleanup.deep_view() =~= instr_cleanup.deep_view() + Seq::empty());
        match &arg.ty {
            AbiType::Num(num) => {
                let num = *num;
                let out = raw_slot(gen, ffi_args, num);
                proof {
                    reveal(Instr::model);
                }
                emit(instr, Instr::LowerNum(arg, out, num));
            },
            AbiType::Isize => {
                let out = raw_slot(gen, ffi_args, self.iptr());
                proof {
                    reveal(Instr::model);
                }
                emit(instr, Instr::LowerNum(arg, out, self.iptr()));
            },
            AbiType::Usize => {
                let out = raw_slot(gen, ffi_args, self.uptr());
                proof {
                    reveal(Instr::model);
                }
                emit(instr, Instr::LowerNum(arg, out, self.uptr()));
            },
            AbiType::Bool => {
                let out = raw_slot(gen, ffi_args, NumType::U8);
                proof {
                    reveal(Instr::model);
                }
                emit(instr, Instr::LowerBool(arg, out));
            },
            AbiType::RefStr => {
                self.import_borrowed(arg, gen, ffi_args, instr, instr_cleanup);
            },
            AbiType::String => {
                let (ptr, len, cap) = self.raw_ptr_len_cap(gen, ffi_args);
                proof {
                    reveal(Instr::model);
                }
                emit(instr, Instr::LowerString(arg, ptr, len, cap, 1, 1));
            },
            AbiType::RefSlice(_) => {
                self.import_borrowed(arg, gen, ffi_args, instr, instr_cleanup);
            },
            AbiType::Vec(ty) => {
                let ty = *ty;
                let (size, align) = self.layout(ty);
                let (ptr, len, cap) = self.raw_ptr_len_cap(gen, ffi_args);
                proof {
                    reveal(Instr::model);
                }
                emit(instr, Instr::LowerVec(arg, ptr, len, cap, ty, size, align));
            },
            AbiType::RefObject(_) => {
                let ptr = raw_slot(gen, ffi_args, self.iptr());
                proof {
                    reveal(Instr::model);
                }
                emit(instr, Instr::BorrowObject(arg, ptr));
            },
            AbiType::Object(_) => {
                let ptr = raw_slot(gen, ffi_args, self.iptr());
                proof {
                    reveal(Instr::model);
                }
                emit(instr, Instr::MoveObject(arg, ptr));
            },
            AbiType::RefFuture(_) => {
                let ptr = raw_slot(gen, ffi_args, self.iptr());
                proof {
                    reveal(Instr::model);
                }
                emit(instr, Instr::BorrowFuture(arg, ptr));
            },
            AbiType::Future(_) => {
                let ptr = raw_slot(gen, ffi_args, self.iptr());
                proof {
                    reveal(Instr::model);
                }
                emit(instr, Instr::MoveFuture(arg, ptr));
            },
            AbiType::RefStream(_) => {
                let ptr = raw_slot(gen, ffi_args, self.iptr());
                proof {
                    reveal(Instr::model);
                }
                emit(instr, Instr::BorrowStream(arg, ptr));
            },
            AbiType::Stream(_) => {
                let ptr = raw_slot(gen, ffi_args, self.iptr());
                proof {
                    reveal(Instr::model);
                }
                emit(instr, Instr::MoveStream(arg, ptr));
            },
            AbiType::Option(_) => {
                self.import_option_arg(arg, gen, ffi_args, instr, instr_cleanup);
            },
            AbiType::Tuple(_) => {
                assert(false);
            },
            AbiType::Result(_) => {
                assert(false);
            },
        }
    }

    /// Lowers borrowed text or a borrowed slice: the copy into a temporary
    /// buffer before the call, and the step that frees it after the call.
    fn import_borrowed(
        self,
        arg: Var,
        gen: &mut VarGen,
        ffi_args: &mut Vec<Var>,
        instr: &mut Vec<Instr>,
        instr_cleanup: &mut Vec<Instr>,
    )
        requires
            arg.ty@ is RefStr || arg.ty@ is RefSlice,
            arg.ty@.import_arg_supported(),
            spec_import_arg(self, arg@, old(gen)@).next <= u32::MAX,
        ensures
            final(gen)@ == spec_import_arg(self, arg@, old(gen)@).next,
            final(ffi_args).deep_view() == old(ffi_args).deep_view() + spec_import_arg(
                self,
                arg@,
                old(gen)@,
            ).slots,
            final(instr).deep_view() == old(instr).deep_view() + spec_import_arg(
                self,
                arg@,
                old(gen)@,
            ).instr,
            final(instr_cleanup).deep_view() == old(instr_cleanup).deep_view() + spec_import_arg(
                self,
                arg@,
                old(gen)@,
            ).cleanup,
        decreases arg.ty@, 0nat,
    {
        let ptr = gen.gen_num(self.iptr());
        let len = gen.gen_num(self.uptr());
        let cap = gen.gen_num(self.uptr());
        let mut define: Vec<Var> = Vec::new();
        define.push(cap.clone());
        assert(define.deep_view() =~= seq![cap@]);
        proof {
            reveal(Instr::model);
        }
        emit(instr, Instr::DefineArgs(define));
        ffi_args.push(ptr.clone());
        ffi_args.push(len.clone());
        assert(ffi_args.deep_view() =~= old(ffi_args).deep_view() + seq![ptr@, len@]);
        match &arg.ty {
            AbiType::RefSlice(ty) => {
                let ty = *ty;
                let (size, align) = self.layout(ty);
                proof {
                    reveal(Instr::model);
                }
                emit(instr, Instr::LowerVec(arg, ptr.clone(), len, cap.clone(), ty, size, align));
                proof {
                    reveal(Instr::model);
                }
                emit(instr_cleanup, Instr::Deallocate(ptr, cap, size, align));
            },
            _ => {
                proof {
                    reveal(Instr::model);
                }
                emit(instr, Instr::LowerString(arg, ptr.clone(), len, cap.clone(), 1, 1));
                proof {
                    reveal(Instr::model);
                }
                emit(instr_cleanup, Instr::Deallocate(ptr, cap, 1, 1));
            },
        }
        assert(instr.deep_view() =~= old(instr).deep_view() + spec_import_arg(
            self,
            arg@,
            old(gen)@,
        ).instr);
    }

    /// Lowers an optional argument: the discriminant slot, then the payload
    /// in a nested program.
    fn import_option_arg(
        self,
        arg: Var,
        gen: &mut VarGen,
        ffi_args: &mut Vec<Var>,
        instr: &mut Vec<Instr>,
        instr_cleanup: &mut Vec<Instr>,
    )
        requires
            arg.ty@ is Option,
            arg.ty@.import_arg_supported(),
            spec_import_arg(self, arg@, old(gen)@).next <= u32::MAX,
        ensures
            final(gen)@ == spec_import_arg(self, arg@, old(gen)@).next,
            final(ffi_args).deep_view() == old(ffi_args).deep_view() + spec_import_arg(
                self,
                arg@,
                old(gen)@,
            ).slots,
            final(instr).deep_view() == old(instr).deep_view() + spec_import_arg(
                self,
                arg@,
                old(gen)@,
            ).instr,
            final(instr_cleanup).deep_view() == old(instr_cleanup).deep_view() + spec_import_arg(
                self,
                arg@,
                old(gen)@,
            ).cleanup,
        decreases arg.ty@, 0nat,
    {
        if let AbiType::Option(ty) = &arg.ty {
            proof {
                lemma_import_arg_next(self, VarView { binding: gen@ + 1, ty: ty@ }, gen@ + 2);
            }
            let var = raw_slot(gen, ffi_args, NumType::U8);
            let some = gen.gen((&**ty).clone());
            let mut some_instr: Vec<Instr> = Vec::new();
            self.import_arg(some.clone(), gen, ffi_args, &mut some_instr, instr_cleanup);
            assert(Instr::LowerOption(arg, var, some, some_instr)@ == InstrView::LowerOption(
                arg@,
                var@,
                some@,
                some_instr.deep_view(),
            )) by {
                reveal(Instr::model);
                lemma_models_deep_view(some_instr);
            }
            emit(instr, Instr::LowerOption(arg, var, some, some_instr));
        }
    }

    /// Lifts a returned value: appends to `ffi_rets` the raw slots that
    /// carry it and to `instr` the steps that build the host slot `out`
    /// from them.
    #[verifier::rlimit(40)]
    pub fn import_return(
        self,
        symbol: &str,
        ty: &AbiType,
        out: Var,
        gen: &mut VarGen,
        ffi_rets: &mut Vec<Var>,
        instr: &mut Vec<Instr>,
    )
        requires
            ty@.import_ret_supported(),
            spec_import_return(self, symbol@, ty@, out@, old(gen)@).next <= u32::MAX,
        ensures
            final(gen)@ == spec_import_return(self, symbol@, ty@, out@, old(gen)@).next,
            final(ffi_rets).deep_view() == old(ffi_rets).deep_view() + spec_import_return(
                self,
                symbol@,
                ty@,
                out@,
                old(gen)@,
            ).slots,
            final(instr).deep_view() == old(instr).deep_view() + spec_import_return(
                self,
                symbol@,
                ty@,
                out@,
                old(gen)@,
            ).instr,
        decreases ty@, 1nat,
    {
        match ty {
            AbiType::Num(num) => {
                let num = *num;
                if matches!(self, Abi::Wasm32) && matches!(num, NumType::U64 | NumType::I64) {
                    let low = raw_slot(gen, ffi_rets, NumType::U32);
                    let high = raw_slot(gen, ffi_rets, NumType::U32);
                    assert(ffi_rets.deep_view() =~= old(ffi_rets).deep_view() + seq![low@, high@]);
                    proof {
                        reveal(Instr::model);
                    }
                    emit(instr, Instr::LiftNumFromU32Tuple(low, high, out, num));
                } else {
                    let var = raw_slot(gen, ffi_rets, num);
                    proof {
                        reveal(Instr::model);
                    }
                    emit(instr, Instr::LiftNum(var, out, num));
                }
            },
            AbiType::Isize => {
                let var = raw_slot(gen, ffi_rets, self.iptr());
                proof {
                    reveal(Instr::model);
                }
                emit(instr, Instr::LiftNum(var, out, self.iptr()));
            },
            AbiType::Usize => {
                let var = raw_slot(gen, ffi_rets, self.uptr());
                proof {
                    reveal(Instr::model);
                }
                emit(instr, Instr::LiftNum(var, out, self.uptr()));
            },
            AbiType::Bool => {
                let var = raw_slot(gen, ffi_rets, NumType::U8);
                proof {
                    reveal(Instr::model);
                }
                emit(instr, Instr::LiftBool(var, out));
            },
            AbiType::RefStr => {
                let (ptr, len) = self.raw_ptr_len(gen, ffi_rets);
                proof {
                    reveal(Instr::model);
                }
                emit(instr, Instr::LiftString(ptr, len, out));
            },
            AbiType::String => {
                self.import_owned(ty, out, gen, ffi_rets, instr);
            },
            AbiType::RefSlice(elem) => {
                let (ptr, len) = self.raw_ptr_len(gen, ffi_rets);
                let elem = *elem;
                proof {
                    reveal(Instr::model);
                }
                emit(instr, Instr::LiftVec(ptr, len, out, elem));
            },
            AbiType::Vec(_) => {
                self.import_owned(ty, out, gen, ffi_rets, instr);
            },
            AbiType::RefObject(_) => {
                assert(false);
            },
            AbiType::Object(object) => {
                let ptr = raw_slot(gen, ffi_rets, self.iptr());
                let destructor = destructor_name(object.as_str());
                let object = object.clone();
                proof {
                    reveal(Instr::model);
                }
                emit(instr, Instr::LiftObject(object, ptr, destructor, out));
            },
            AbiType::Option(_) => {
                self.import_option_return(symbol, ty, out, gen, ffi_rets, instr);
            },
            AbiType::Result(_) => {
                self.import_result_return(symbol, ty, out, gen, ffi_rets, instr);
            },
            AbiType::RefFuture(_) => {
                assert(false);
            },
            AbiType::Future(_) => {
                let ptr = raw_slot(gen, ffi_rets, self.iptr());
                let poll = future_poll_name(symbol);
                let destructor = future_drop_name(symbol);
                proof {
                    reveal(Instr::model);
                }
                emit(instr, Instr::LiftFuture(ptr, poll, destructor, out));
            },
            AbiType::RefStream(_) => {
                assert(false);
            },
            AbiType::Stream(_) => {
                let ptr = raw_slot(gen, ffi_rets, self.iptr());
                let poll = stream_poll_name(symbol);
                let destructor = stream_drop_name(symbol);
                proof {
                    reveal(Instr::model);
                }
                emit(instr, Instr::LiftStream(ptr, poll, destructor, out));
            },
            AbiType::Tuple(_) => {
                self.import_tuple_return(symbol, ty, out, gen, ffi_rets, instr);
            },
        }
    }

    /// Lifts owned text or an owned vector: the copy out of the buffer,
    /// then the step that frees it.
    fn import_owned(
        self,
        ty: &AbiType,
        out: Var,
        gen: &mut VarGen,
        ffi_rets: &mut Vec<Var>,
        instr: &mut Vec<Instr>,
    )
        requires
            ty@ is String || ty@ is Vec,
            old(gen)@ + 3 <= u32::MAX,
        ensures
            final(gen)@ == spec_import_owned(self, ty@, out@, old(gen)@).next,
            final(ffi_rets).deep_view() == old(ffi_rets).deep_view() + spec_import_owned(
                self,
                ty@,
                out@,
                old(gen)@,
            ).slots,
            final(instr).deep_view() == old(instr).deep_view() + spec_import_owned(
                self,
                ty@,
                out@,
                old(gen)@,
            ).instr,
    {
        let (ptr, len, cap) = self.raw_ptr_len_cap(gen, ffi_rets);
        match ty {
            AbiType::Vec(elem) => {
                let elem = *elem;
                let (size, align) = self.layout(elem);
                proof {
                    reveal(Instr::model);
                }
                emit(instr, Instr::LiftVec(ptr.clone(), len, out, elem));
                proof {
                    reveal(Instr::model);
                }
                emit(instr, Instr::Deallocate(ptr, cap, size, align));
            },
            _ => {
                proof {
                    reveal(Instr::model);
                }
                emit(instr, Instr::LiftString(ptr.clone(), len, out));
                proof {
                    reveal(Instr::model);
                }
                emit(instr, Instr::Deallocate(ptr, cap, 1, 1));
            },
        }
        assert(instr.deep_view() =~= old(instr).deep_view() + spec_import_owned(
            self,
            ty@,
            out@,
            old(gen)@,
        ).instr);
    }

    /// Lifts an optional returned value: the step that ends the program
    /// where the value is absent, then the lifting of the payload.
    fn import_option_return(
        self,
        symbol: &str,
        ty: &AbiType,
        out: Var,
        gen: &mut VarGen,
        ffi_rets: &mut Vec<Var>,
        instr: &mut Vec<Instr>,
    )
        requires
            ty@ is Option,
            ty@.import_ret_supported(),
            spec_import_return(self, symbol@, ty@, out@, old(gen)@).next <= u32::MAX,
        ensures
            final(gen)@ == spec_import_return(self, symbol@, ty@, out@, old(gen)@).next,
            final(ffi_rets).deep_view() == old(ffi_rets).deep_view() + spec_import_return(
                self,
                symbol@,
                ty@,
                out@,
                old(gen)@,
            ).slots,
            final(instr).deep_view() == old(instr).deep_view() + spec_import_return(
                self,
                symbol@,
                ty@,
                out@,
                old(gen)@,
            ).instr,
        decreases ty@, 0nat,
    {
        if let AbiType::Option(inner) = ty {
            proof {
                lemma_import_return_next(self, symbol@, inner@, out@, gen@ + 1);
            }
            let var = raw_slot(gen, ffi_rets, NumType::U8);
            proof {
                reveal(Instr::model);
            }
            emit(instr, Instr::HandleNull(var));
            self.import_return(symbol, &**inner, out, gen, ffi_rets, instr);
        }
    }

    /// Lifts a fallible returned value: the step that raises the error
    /// text where there is one, then the lifting of the payload.
    fn import_result_return(
        self,
        symbol: &str,
        ty: &AbiType,
        out: Var,
        gen: &mut VarGen,
        ffi_rets: &mut Vec<Var>,
        instr: &mut Vec<Instr>,
    )
        requires
            ty@ is Result,
            ty@.import_ret_supported(),
            spec_import_return(self, symbol@, ty@, out@, old(gen)@).next <= u32::MAX,
        ensures
            final(gen)@ == spec_import_return(self, symbol@, ty@, out@, old(gen)@).next,
            final(ffi_rets).deep_view() == old(ffi_rets).deep_view() + spec_import_return(
                self,
                symbol@,
                ty@,
                out@,
                old(gen)@,
            ).slots,
            final(instr).deep_view() == old(instr).deep_view() + spec_import_return(
                self,
                symbol@,
                ty@,
                out@,
                old(gen)@,
            ).instr,
        decreases ty@, 0nat,
    {
        if let AbiType::Result(inner) = ty {
            proof {
                lemma_import_return_next(self, symbol@, inner@, out@, gen@ + 4);
            }
            let var = raw_slot(gen, ffi_rets, NumType::U8);
            let (ptr, len, cap) = self.raw_ptr_len_cap(gen, ffi_rets);
            assert(ffi_rets.deep_view() =~= old(ffi_rets).deep_view() + seq![
                var@,
                ptr@,
                len@,
                cap@,
            ]);
            proof {
                reveal(Instr::model);
            }
            emit(instr, Instr::HandleError(var, ptr, len, cap));
            self.import_return(symbol, &**inner, out, gen, ffi_rets, instr);
        }
    }

    /// Lifts a returned tuple: each element into a fresh slot, then the
    /// tuple from those slots.
    fn import_tuple_return(
        self,
        symbol: &str,
        ty: &AbiType,
        out: Var,
        gen: &mut VarGen,
        ffi_rets: &mut Vec<Var>,
        instr: &mut Vec<Instr>,
    )
        requires
            ty@ is Tuple,
            ty@.import_ret_supported(),
            spec_import_return(self, symbol@, ty@, out@, old(gen)@).next <= u32::MAX,
        ensures
            final(gen)@ == spec_import_return(self, symbol@, ty@, out@, old(gen)@).next,
            final(ffi_rets).deep_view() == old(ffi_rets).deep_view() + spec_import_return(
                self,
                symbol@,
                ty@,
                out@,
                old(gen)@,
            ).slots,
            final(instr).deep_view() == old(instr).deep_view() + spec_import_return(
                self,
                symbol@,
                ty@,
                out@,
                old(gen)@,
            ).instr,
        decreases ty@, 0nat,
    {
        if let AbiType::Tuple(tys) = ty {
            let ghost start = gen@;
            let ghost instr0 = instr.deep_view();
            let ghost rets0 = ffi_rets.deep_view();
            let ghost elems = tys.deep_view();
            let mut vars: Vec<Var> = Vec::new();
            let mut i: usize = 0;
            proof {
                lemma_tuple_view(*tys);
            }
            while i < tys.len()
                invariant
                    ty@ == AbiTypeView::Tuple(elems),
                    elems == tys.deep_view(),
                    i <= tys.len(),
                    ty@.import_ret_supported(),
                    spec_import_returns(self, symbol@, elems, tys.len() as nat, start).next
                        <= u32::MAX,
                    gen@ == spec_import_returns(self, symbol@, elems, i as nat, start).next,
                    vars.deep_view() == spec_import_returns(
                        self,
                        symbol@,
                        elems,
                        i as nat,
                        start,
                    ).vars,
                    instr.deep_view() == instr0 + spec_import_returns(
                        self,
                        symbol@,
                        elems,
                        i as nat,
                        start,
                    ).instr,
                    ffi_rets.deep_view() == rets0 + spec_import_returns(
                        self,
                        symbol@,
                        elems,
                        i as nat,
                        start,
                    ).slots,
                decreases tys.len() - i,
            {
                proof {
                    lemma_import_rets_supported(elems, tys.len() as nat, i as int);
                    lemma_import_returns_next(self, symbol@, elems, (i + 1) as nat, start);
                    lemma_import_returns_next(self, symbol@, elems, tys.len() as nat, start);
                    lemma_import_return_next(
                        self,
                        symbol@,
                        tys[i as int]@,
                        VarView { binding: gen@, ty: tys[i as int]@ },
                        gen@ + 1,
                    );
                    assert(decreases_to!(ty@ => ty@->Tuple_0));
                    assert(decreases_to!(elems => elems[i as int]));
                }
                let elem = gen.gen(tys[i].clone());
                push_var(&mut vars, elem.clone());
                self.import_return(symbol, &tys[i], elem, gen, ffi_rets, instr);
                i += 1;
            }
            proof {
                reveal(Instr::model);
            }
            emit(instr, Instr::LiftTuple(vars, out));
        }
    }

    /// Appends the host-level arguments that one declared argument stands
    /// for.
    fn flatten_arg(arg: &(String, AbiType), abi_args: &mut Vec<(String, AbiType)>)
        ensures
            final(abi_args).deep_view() == old(abi_args).deep_view() + flatten_arg(
                arg.deep_view(),
            ),
    {
        match &arg.1 {
            AbiType::Tuple(tys) => {
                let ghost elems = tys.deep_view();
                let mut i: usize = 0;
                proof {
                    lemma_tuple_view(*tys);
                }
                while i < tys.len()
                    invariant
                        i <= tys.len(),
                        elems == tys.deep_view(),
                        abi_args.deep_view() == old(abi_args).deep_view() + Seq::new(
                            i as nat,
                            |k: int| (indexed(arg.0@, k as nat), elems[k]),
                        ),
                    decreases tys.len() - i,
                {
                    let ghost before = abi_args.deep_view();
                    let name = indexed_name(arg.0.as_str(), i);
                    abi_args.push((name, tys[i].clone()));
                    assert(abi_args.deep_view() =~= before.push(
                        (indexed(arg.0@, i as nat), elems[i as int]),
                    ));
                    i += 1;
                }
            },
            _ => {
                abi_args.push((arg.0.clone(), arg.1.clone()));
                assert(abi_args.deep_view() =~= old(abi_args).deep_view() + seq![arg.deep_view()]);
            },
        }
    }

    /// Collects the host-level arguments of the import side of a function.
    pub fn abi_args(func: &AbiFunction) -> (abi_args: Vec<(String, AbiType)>)
        ensures
            abi_args.deep_view() == spec_abi_args(func@),
    {
        let mut abi_args: Vec<(String, AbiType)> = Vec::new();
        match &func.ty {
            FunctionType::PollFuture(_, _) | FunctionType::PollStream(_, _) => {
                abi_args.push((String::from_str("boxed"), AbiType::Isize));
            },
            _ => {},
        }
        let ghost boxed = abi_args.deep_view();
        assert(boxed =~= if func@.ty is PollFuture || func@.ty is PollStream {
            seq![("boxed"@, AbiTypeView::Isize)]
        } else {
            Seq::empty()
        });
        let mut i: usize = 0;
        while i < func.args.len()
            invariant
                i <= func.args.len(),
                abi_args.deep_view() == boxed + flatten_args(func@.args, i as nat),
            decreases func.args.len() - i,
        {
            Self::flatten_arg(&func.args[i], &mut abi_args);
            i += 1;
        }
        abi_args
    }

    /// Determines the host-level result of the import side of a function.
    pub fn abi_ret(func: &AbiFunction) -> (abi_ret: Option<AbiType>)
        ensures
            abi_ret.deep_view() == spec_abi_ret(func@.ret),
    {
        match &func.ret {
            Some(ty) => {
                let empty = match ty {
                    AbiType::Tuple(tys) => {
                        proof {
                            lemma_tuple_view(*tys);
                        }
                        tys.len() == 0
                    },
                    _ => false,
                };
                if empty {
                    None
                } else {
                    Some(ty.clone())
                }
            },
            None => None,
        }
    }

    /// Borrows the receiver of a method.
    fn import_receiver(
        self,
        ty: &FunctionType,
        gen: &mut VarGen,
        ffi_args: &mut Vec<Var>,
        instr: &mut Vec<Instr>,
    )
        requires
            old(gen)@ == 0,
            old(instr)@.len() == 0,
            old(ffi_args)@.len() == 0,
        ensures
            final(gen)@ == spec_import_receiver(self, ty@).next,
            final(instr).deep_view() == spec_import_receiver(self, ty@).instr,
            final(ffi_args).deep_view() == spec_import_receiver(self, ty@).slots,
    {
        assert(instr.deep_view() =~= Seq::empty());
        assert(ffi_args.deep_view() =~= Seq::empty());
        match ty {
            FunctionType::Method(_) => {
                let receiver = raw_slot(gen, ffi_args, self.iptr());
                proof {
                    reveal(Instr::model);
                }
                emit(instr, Instr::BorrowSelf(receiver));
            },
            _ => {},
        }
    }

    /// Writes the call and what follows it.
    fn import_call(
        self,
        symbol: &str,
        abi_ret: &Option<AbiType>,
        ffi_args: &Vec<Var>,
        gen: &mut VarGen,
        ffi_rets: &mut Vec<Var>,
        instr: &mut Vec<Instr>,
        instr_cleanup: Vec<Instr>,
    )
        requires
            old(ffi_rets)@.len() == 0,
            abi_ret.deep_view() matches Some(ty) ==> ty.import_ret_supported(),
            spec_import_call(
                self,
                symbol@,
                abi_ret.deep_view(),
                ffi_args.deep_view(),
                old(gen)@,
                instr_cleanup.deep_view(),
            ).next <= u32::MAX,
        ensures
            final(gen)@ == spec_import_call(
                self,
                symbol@,
                abi_ret.deep_view(),
                ffi_args.deep_view(),
                old(gen)@,
                instr_cleanup.deep_view(),
            ).next,
            final(ffi_rets).deep_view() == spec_import_call(
                self,
                symbol@,
                abi_ret.deep_view(),
                ffi_args.deep_view(),
                old(gen)@,
                instr_cleanup.deep_view(),
            ).slots,
            final(instr).deep_view() == old(instr).deep_view() + spec_import_call(
                self,
                symbol@,
                abi_ret.deep_view(),
                ffi_args.deep_view(),
                old(gen)@,
                instr_cleanup.deep_view(),
            ).instr,
    {
        assert(ffi_rets.deep_view() =~= Seq::empty());
        let call_symbol = String::from_str(symbol);
        let call_args = clone_vars(ffi_args);
        match abi_ret {
            Some(ty) => {
                proof {
                    lemma_import_return_next(
                        self,
                        symbol@,
                        ty@,
                        VarView { binding: gen@ + 1, ty: ty@ },
                        gen@ + 2,
                    );
                }
                let ret = gen.gen(ty.clone());
                let call_ret = Some(ret.clone());
                proof {
                    reveal(Instr::model);
                }
                emit(instr, Instr::Call(call_symbol, call_ret, call_args));
                let out = gen.gen(ty.clone());
                let mut instr_ret: Vec<Instr> = Vec::new();
                self.import_return(symbol, ty, out.clone(), gen, ffi_rets, &mut instr_ret);
                let rets = clone_vars(ffi_rets);
                proof {
                    reveal(Instr::model);
                }
                emit(instr, Instr::BindRets(ret, rets));
                append_instr(instr, instr_ret);
                append_instr(instr, instr_cleanup);
                proof {
                    reveal(Instr::model);
                }
                emit(instr, Instr::ReturnValue(out));
            },
            None => {
                proof {
                    reveal(Instr::model);
                }
                emit(instr, Instr::Call(call_symbol, None, call_args));
                append_instr(instr, instr_cleanup);
                proof {
                    reveal(Instr::model);
                }
                emit(instr, Instr::ReturnVoid);
            },
        }
    }

    /// Derives the import side of a function.
    #[verifier::rlimit(40)]
    pub fn import(self, func: &AbiFunction) -> (import: Import)
        requires
            importable(self, func@),
        ensures
            import@ == spec_import(self, func@),
    {
        let symbol = func.symbol();
        let mut gen = VarGen::new();
        let mut ffi_args: Vec<Var> = Vec::new();
        let mut ffi_rets: Vec<Var> = Vec::new();
        let mut instr: Vec<Instr> = Vec::new();
        let mut instr_cleanup: Vec<Instr> = Vec::new();
        let mut instr_arg: Vec<Instr> = Vec::new();
        let abi_args = Self::abi_args(func);
        self.import_receiver(&func.ty, &mut gen, &mut ffi_args, &mut instr_arg);
        let ghost receiver = spec_import_receiver(self, func.ty@);
        let ghost args = abi_args.deep_view();
        let abi_ret = Self::abi_ret(func);
        proof {
            let all = spec_import_args(self, args, args.len(), receiver.next);
            lemma_import_call_next(
                self,
                symbol@,
                abi_ret.deep_view(),
                receiver.slots + all.slots,
                all.next,
                all.cleanup,
            );
        }
        assert(instr.deep_view() =~= Seq::empty());
        assert(instr_cleanup.deep_view() =~= Seq::empty());
        let mut i: usize = 0;
        while i < abi_args.len()
            invariant
                i <= abi_args.len(),
                args == abi_args.deep_view(),
                args == spec_abi_args(func@),
                importable(self, func@),
                spec_import_args(self, args, args.len(), receiver.next).next <= u32::MAX,
                gen@ == spec_import_args(self, args, i as nat, receiver.next).next,
                instr.deep_view() == spec_import_args(self, args, i as nat, receiver.next).binds,
                instr_arg.deep_view() == receiver.instr + spec_import_args(
                    self,
                    args,
                    i as nat,
                    receiver.next,
                ).instr,
                ffi_args.deep_view() == receiver.slots + spec_import_args(
                    self,
                    args,
                    i as nat,
                    receiver.next,
                ).slots,
                instr_cleanup.deep_view() == spec_import_args(
                    self,
                    args,
                    i as nat,
                    receiver.next,
                ).cleanup,
            decreases abi_args.len() - i,
        {
            proof {
                lemma_import_args_next(self, args, (i + 1) as nat, receiver.next);
                lemma_import_args_next(self, args, args.len(), receiver.next);
                lemma_import_arg_next(
                    self,
                    VarView { binding: gen@, ty: args[i as int].1 },
                    gen@ + 1,
                );
                assert(args[i as int].1.import_arg_supported());
            }
            let arg = gen.gen(abi_args[i].1.clone());
            let name = abi_args[i].0.clone();
            let bound = arg.clone();
            proof {
                reveal(Instr::model);
            }
            let ghost binds = instr.deep_view();
            emit(&mut instr, Instr::BindArg(name, bound));
            assert(instr.deep_view() =~= binds.push(InstrView::BindArg(args[i as int].0, arg@)));
            self.import_arg(arg, &mut gen, &mut ffi_args, &mut instr_arg, &mut instr_cleanup);
            i += 1;
        }
        if !ffi_args.is_empty() {
            let define = clone_vars(&ffi_args);
            proof {
                reveal(Instr::model);
            }
            emit(&mut instr, Instr::DefineArgs(define));
        }
        append_instr(&mut instr, instr_arg);
        self.import_call(
            symbol.as_str(),
            &abi_ret,
            &ffi_args,
            &mut gen,
            &mut ffi_rets,
            &mut instr,
            instr_cleanup,
        );
        assert(instr.deep_view() == spec_import(self, func@).instr);
        Import { symbol, abi_args, ffi_args, instr, ffi_ret: func.ret(ffi_rets), abi_ret }
    }
}

} // verus!
