//! Export lowering: the program by which an implementation exposes a
//! function as a flat symbol.

use crate::abi::{
    clone_vars, lemma_args_supported, lemma_tuple_view, num_var, push_var, raw_slot, Abi,
    AbiFunction, AbiFunctionView, AbiType, AbiTypeView, FunctionType, FunctionTypeView, NumType,
    Return, ReturnView, Var, VarGen, VarView,
};
use vstd::prelude::*;

verus! {

/// One step of an export program. A `Lift` step builds a host value from
/// raw slots, a `Lower` step takes a host value apart into raw slots.
#[derive(Debug, PartialEq, Eq)]
pub enum Instr {
    LiftNum(Var, Var),
    LowerNum(Var, Var),
    LowerNumAsU32Tuple(Var, Var, Var, NumType),
    LiftIsize(Var, Var),
    LowerIsize(Var, Var),
    LiftUsize(Var, Var),
    LowerUsize(Var, Var),
    LiftBool(Var, Var),
    LowerBool(Var, Var),
    LiftStr(Var, Var, Var),
    LowerStr(Var, Var, Var),
    LiftString(Var, Var, Var, Var),
    LowerString(Var, Var, Var, Var),
    LiftSlice(Var, Var, Var, NumType),
    LowerSlice(Var, Var, Var, NumType),
    LiftVec(Var, Var, Var, Var, NumType),
    LowerVec(Var, Var, Var, Var, NumType),
    LiftRefObject(Var, Var, String),
    LowerRefObject(Var, Var),
    LiftObject(Var, Var, String),
    LowerObject(Var, Var),
    LiftOption(Var, Var, Var, Vec<Instr>),
    LowerOption(Var, Var, Var, Vec<Instr>),
    LowerResult(Var, Var, Var, Vec<Instr>, Var, Vec<Instr>),
    LiftFuture(Var, Var, AbiType),
    LowerFuture(Var, Var, AbiType),
    LiftRefFuture(Var, Var, AbiType),
    LowerRefFuture(Var, Var, AbiType),
    LiftStream(Var, Var, AbiType),
    LowerStream(Var, Var, AbiType),
    LiftRefStream(Var, Var, AbiType),
    LowerRefStream(Var, Var, AbiType),
    LiftTuple(Vec<Var>, Var),
    LowerTuple(Var, Vec<Var>),
    CallAbi(FunctionType, Option<Var>, String, Option<Var>, Vec<Var>),
    DefineRets(Vec<Var>),
}

/// The value of an [`Instr`].
pub enum InstrView {
    LiftNum(VarView, VarView),
    LowerNum(VarView, VarView),
    LowerNumAsU32Tuple(VarView, VarView, VarView, NumType),
    LiftIsize(VarView, VarView),
    LowerIsize(VarView, VarView),
    LiftUsize(VarView, VarView),
    LowerUsize(VarView, VarView),
    LiftBool(VarView, VarView),
    LowerBool(VarView, VarView),
    LiftStr(VarView, VarView, VarView),
    LowerStr(VarView, VarView, VarView),
    LiftString(VarView, VarView, VarView, VarView),
    LowerString(VarView, VarView, VarView, VarView),
    LiftSlice(VarView, VarView, VarView, NumType),
    LowerSlice(VarView, VarView, VarView, NumType),
    LiftVec(VarView, VarView, VarView, VarView, NumType),
    LowerVec(VarView, VarView, VarView, VarView, NumType),
    LiftRefObject(VarView, VarView, Seq<char>),
    LowerRefObject(VarView, VarView),
    LiftObject(VarView, VarView, Seq<char>),
    LowerObject(VarView, VarView),
    LiftOption(VarView, VarView, VarView, Seq<InstrView>),
    LowerOption(VarView, VarView, VarView, Seq<InstrView>),
    LowerResult(VarView, VarView, VarView, Seq<InstrView>, VarView, Seq<InstrView>),
    LiftFuture(VarView, VarView, AbiTypeView),
    LowerFuture(VarView, VarView, AbiTypeView),
    LiftRefFuture(VarView, VarView, AbiTypeView),
    LowerRefFuture(VarView, VarView, AbiTypeView),
    LiftStream(VarView, VarView, AbiTypeView),
    LowerStream(VarView, VarView, AbiTypeView),
    LiftRefStream(VarView, VarView, AbiTypeView),
    LowerRefStream(VarView, VarView, AbiTypeView),
    LiftTuple(Seq<VarView>, VarView),
    LowerTuple(VarView, Seq<VarView>),
    CallAbi(FunctionTypeView, Option<VarView>, Seq<char>, Option<VarView>, Seq<VarView>),
    DefineRets(Seq<VarView>),
}

impl Instr {
    /// The value of the step, computed by recursion on its structure.
    #[verifier::opaque]
    pub open spec fn model(&self) -> InstrView
        decreases self,
    {
        match self {
            Instr::LiftNum(a, b) => InstrView::LiftNum(a@, b@),
            Instr::LowerNum(a, b) => InstrView::LowerNum(a@, b@),
            Instr::LowerNumAsU32Tuple(a, b, c, n) => InstrView::LowerNumAsU32Tuple(a@, b@, c@, *n),
            Instr::LiftIsize(a, b) => InstrView::LiftIsize(a@, b@),
            Instr::LowerIsize(a, b) => InstrView::LowerIsize(a@, b@),
            Instr::LiftUsize(a, b) => InstrView::LiftUsize(a@, b@),
            Instr::LowerUsize(a, b) => InstrView::LowerUsize(a@, b@),
            Instr::LiftBool(a, b) => InstrView::LiftBool(a@, b@),
            Instr::LowerBool(a, b) => InstrView::LowerBool(a@, b@),
            Instr::LiftStr(a, b, c) => InstrView::LiftStr(a@, b@, c@),
            Instr::LowerStr(a, b, c) => InstrView::LowerStr(a@, b@, c@),
            Instr::LiftString(a, b, c, d) => InstrView::LiftString(a@, b@, c@, d@),
            Instr::LowerString(a, b, c, d) => InstrView::LowerString(a@, b@, c@, d@),
            Instr::LiftSlice(a, b, c, n) => InstrView::LiftSlice(a@, b@, c@, *n),
            Instr::LowerSlice(a, b, c, n) => InstrView::LowerSlice(a@, b@, c@, *n),
            Instr::LiftVec(a, b, c, d, n) => InstrView::LiftVec(a@, b@, c@, d@, *n),
            Instr::LowerVec(a, b, c, d, n) => InstrView::LowerVec(a@, b@, c@, d@, *n),
            Instr::LiftRefObject(a, b, s) => InstrView::LiftRefObject(a@, b@, s@),
            Instr::LowerRefObject(a, b) => InstrView::LowerRefObject(a@, b@),
            Instr::LiftObject(a, b, s) => InstrView::LiftObject(a@, b@, s@),
            Instr::LowerObject(a, b) => InstrView::LowerObject(a@, b@),
            Instr::LiftOption(a, b, c, inner) => InstrView::LiftOption(
                a@,
                b@,
                c@,
                Self::models(inner@),
            ),
            Instr::LowerOption(a, b, c, inner) => InstrView::LowerOption(
                a@,
                b@,
                c@,
                Self::models(inner@),
            ),
            Instr::LowerResult(a, b, c, ok, d, err) => InstrView::LowerResult(
                a@,
                b@,
                c@,
                Self::models(ok@),
                d@,
                Self::models(err@),
            ),
            Instr::LiftFuture(a, b, t) => InstrView::LiftFuture(a@, b@, t@),
            Instr::LowerFuture(a, b, t) => InstrView::LowerFuture(a@, b@, t@),
            Instr::LiftRefFuture(a, b, t) => InstrView::LiftRefFuture(a@, b@, t@),
            Instr::LowerRefFuture(a, b, t) => InstrView::LowerRefFuture(a@, b@, t@),
            Instr::LiftStream(a, b, t) => InstrView::LiftStream(a@, b@, t@),
            Instr::LowerStream(a, b, t) => InstrView::LowerStream(a@, b@, t@),
            Instr::LiftRefStream(a, b, t) => InstrView::LiftRefStream(a@, b@, t@),
            Instr::LowerRefStream(a, b, t) => InstrView::LowerRefStream(a@, b@, t@),
            Instr::LiftTuple(vars, a) => InstrView::LiftTuple(vars.deep_view(), a@),
            Instr::LowerTuple(a, vars) => InstrView::LowerTuple(a@, vars.deep_view()),
            Instr::CallAbi(ty, receiver, name, ret, args) => InstrView::CallAbi(
                ty@,
                receiver.deep_view(),
                name@,
                ret.deep_view(),
                args.deep_view(),
            ),
            Instr::DefineRets(vars) => InstrView::DefineRets(vars.deep_view()),
        }
    }

    /// The values of a list of steps.
    pub open spec fn models(instr: Seq<Instr>) -> Seq<InstrView>
        decreases instr,
    {
        Seq::new(
            instr.len(),
            |i: int|
                if 0 <= i < instr.len() {
                    instr[i].model()
                } else {
                    InstrView::DefineRets(Seq::empty())
                },
        )
    }
}

impl View for Instr {
    type V = InstrView;

    open spec fn view(&self) -> InstrView {
        self.model()
    }
}

impl DeepView for Instr {
    type V = InstrView;

    open spec fn deep_view(&self) -> InstrView {
        self.view()
    }
}

/// The export side of one function: the flat symbol, its raw parameters,
/// the program that runs behind it, and its raw return.
#[derive(Debug, PartialEq, Eq)]
pub struct Export {
    pub symbol: String,
    pub ffi_args: Vec<Var>,
    pub instr: Vec<Instr>,
    pub ffi_ret: Return,
}

/// The value of an [`Export`].
pub struct ExportView {
    pub symbol: Seq<char>,
    pub ffi_args: Seq<VarView>,
    pub instr: Seq<InstrView>,
    pub ffi_ret: ReturnView,
}

impl View for Export {
    type V = ExportView;

    open spec fn view(&self) -> ExportView {
        ExportView {
            symbol: self.symbol@,
            ffi_args: self.ffi_args.deep_view(),
            instr: self.instr.deep_view(),
            ffi_ret: self.ffi_ret@,
        }
    }
}

impl DeepView for Export {
    type V = ExportView;

    open spec fn deep_view(&self) -> ExportView {
        self.view()
    }
}

/// What lowering one value gives: the raw slots, the steps, and the
/// binding that the next fresh slot gets.
pub struct Lowered {
    pub next: nat,
    pub slots: Seq<VarView>,
    pub instr: Seq<InstrView>,
}

/// What lowering a list of values gives: as [`Lowered`], with the slot
/// that holds each value.
pub struct LoweredList {
    pub next: nat,
    pub vars: Seq<VarView>,
    pub slots: Seq<VarView>,
    pub instr: Seq<InstrView>,
}

/// The lifting of one argument into the host slot `out`, where `next` is
/// the first free binding. Each raw slot is a fresh number slot; the raw
/// slots are taken in the order of [`AbiTypeView::arg_shape`], and one step
/// builds `out` from them. An optional value lifts its payload in a nested
/// program, a tuple lifts its elements one after another before it is
/// built.
pub open spec fn spec_export_arg(abi: Abi, out: VarView, next: nat) -> Lowered
    decreases out.ty, 0nat,
{
    let a = num_var(next, abi.iptr());
    let b = num_var(next + 1, abi.uptr());
    let c = num_var(next + 2, abi.uptr());
    match out.ty {
        AbiTypeView::Num(num) => {
            let arg = num_var(next, num);
            Lowered { next: next + 1, slots: seq![arg], instr: seq![InstrView::LiftNum(arg, out)] }
        },
        AbiTypeView::Isize => Lowered {
            next: next + 1,
            slots: seq![a],
            instr: seq![InstrView::LiftIsize(a, out)],
        },
        AbiTypeView::Usize => {
            let arg = num_var(next, abi.uptr());
            Lowered {
                next: next + 1,
                slots: seq![arg],
                instr: seq![InstrView::LiftUsize(arg, out)],
            }
        },
        AbiTypeView::Bool => {
            let arg = num_var(next, NumType::U8);
            Lowered { next: next + 1, slots: seq![arg], instr: seq![InstrView::LiftBool(arg, out)] }
        },
        AbiTypeView::RefStr => Lowered {
            next: next + 2,
            slots: seq![a, b],
            instr: seq![InstrView::LiftStr(a, b, out)],
        },
        AbiTypeView::String => Lowered {
            next: next + 3,
            slots: seq![a, b, c],
            instr: seq![InstrView::LiftString(a, b, c, out)],
        },
        AbiTypeView::RefSlice(ty) => Lowered {
            next: next + 2,
            slots: seq![a, b],
            instr: seq![InstrView::LiftSlice(a, b, out, ty)],
        },
        AbiTypeView::Vec(ty) => Lowered {
            next: next + 3,
            slots: seq![a, b, c],
            instr: seq![InstrView::LiftVec(a, b, c, out, ty)],
        },
        AbiTypeView::RefObject(object) => Lowered {
            next: next + 1,
            slots: seq![a],
            instr: seq![InstrView::LiftRefObject(a, out, object)],
        },
        AbiTypeView::Object(object) => Lowered {
            next: next + 1,
            slots: seq![a],
            instr: seq![InstrView::LiftObject(a, out, object)],
        },
        AbiTypeView::Option(ty) => {
            let opt = num_var(next, NumType::U8);
            let some = VarView { binding: next + 1, ty: *ty };
            let inner = spec_export_arg(abi, some, next + 2);
            Lowered {
                next: inner.next,
                slots: seq![opt] + inner.slots,
                instr: seq![InstrView::LiftOption(opt, out, some, inner.instr)],
            }
        },
        AbiTypeView::Result(_) => Lowered { next, slots: Seq::empty(), instr: Seq::empty() },
        AbiTypeView::RefFuture(ty) => Lowered {
            next: next + 1,
            slots: seq![a],
            instr: seq![InstrView::LiftRefFuture(a, out, *ty)],
        },
        AbiTypeView::Future(ty) => Lowered {
            next: next + 1,
            slots: seq![a],
            instr: seq![InstrView::LiftFuture(a, out, *ty)],
        },
        AbiTypeView::RefStream(ty) => Lowered {
            next: next + 1,
            slots: seq![a],
            instr: seq![InstrView::LiftRefStream(a, out, *ty)],
        },
        AbiTypeView::Stream(ty) => Lowered {
            next: next + 1,
            slots: seq![a],
            instr: seq![InstrView::LiftStream(a, out, *ty)],
        },
        AbiTypeView::Tuple(tys) => {
            let elems = spec_export_args(abi, tys, tys.len(), next);
            Lowered {
                next: elems.next,
                slots: elems.slots,
                instr: elems.instr.push(InstrView::LiftTuple(elems.vars, out)),
            }
        },
    }
}

/// The lifting of the first `n` of the given arguments: each gets a fresh
/// host slot and is then lifted into it, in order.
pub open spec fn spec_export_args(abi: Abi, tys: Seq<AbiTypeView>, n: nat, next: nat) -> LoweredList
    decreases tys, n,
{
    if n == 0 || n > tys.len() {
        LoweredList { next, vars: Seq::empty(), slots: Seq::empty(), instr: Seq::empty() }
    } else {
        let before = spec_export_args(abi, tys, (n - 1) as nat, next);
        let arg = VarView { binding: before.next, ty: tys[n - 1] };
        let this = spec_export_arg(abi, arg, before.next + 1);
        LoweredList {
            next: this.next,
            vars: before.vars.push(arg),
            slots: before.slots + this.slots,
            instr: before.instr + this.instr,
        }
    }
}

/// The lowering of returned text from the host slot `ret`: pointer, length
/// and capacity of the buffer, which is handed over as it is.
pub open spec fn spec_export_return_string(abi: Abi, ret: VarView, next: nat) -> Lowered {
    let ptr = num_var(next, abi.iptr());
    let len = num_var(next + 1, abi.uptr());
    let cap = num_var(next + 2, abi.uptr());
    Lowered {
        next: next + 3,
        slots: seq![ptr, len, cap],
        instr: seq![InstrView::LowerString(ret, ptr, len, cap)],
    }
}

/// The lowering of a returned value from the host slot `ret`, where `next`
/// is the first free binding. Each raw slot is a fresh number slot; the
/// raw slots are given in the order of [`AbiTypeView::ret_shape`], and one
/// step fills them from `ret`. An optional value lowers its payload in a
/// nested program; a fallible value takes its raw slots for the error text
/// before those for the payload, and lowers each in a nested program; a
/// tuple is taken apart first, and its elements are lowered one after
/// another.
pub open spec fn spec_export_return(abi: Abi, ret: VarView, next: nat) -> Lowered
    decreases ret.ty, 0nat,
{
    let a = num_var(next, abi.iptr());
    let b = num_var(next + 1, abi.uptr());
    let c = num_var(next + 2, abi.uptr());
    match ret.ty {
        AbiTypeView::Num(num) => if AbiTypeView::split_num(abi, num) {
            let low = num_var(next, abi.uptr());
            Lowered {
                next: next + 2,
                slots: seq![low, b],
                instr: seq![InstrView::LowerNumAsU32Tuple(ret, low, b, num)],
            }
        } else {
            let out = num_var(next, num);
            Lowered { next: next + 1, slots: seq![out], instr: seq![InstrView::LowerNum(ret, out)] }
        },
        AbiTypeView::Isize => Lowered {
            next: next + 1,
            slots: seq![a],
            instr: seq![InstrView::LowerIsize(ret, a)],
        },
        AbiTypeView::Usize => {
            let out = num_var(next, abi.uptr());
            Lowered {
                next: next + 1,
                slots: seq![out],
                instr: seq![InstrView::LowerUsize(ret, out)],
            }
        },
        AbiTypeView::Bool => {
            let out = num_var(next, NumType::U8);
            Lowered {
                next: next + 1,
                slots: seq![out],
                instr: seq![InstrView::LowerBool(ret, out)],
            }
        },
        AbiTypeView::RefStr => Lowered {
            next: next + 2,
            slots: seq![a, b],
            instr: seq![InstrView::LowerStr(ret, a, b)],
        },
        AbiTypeView::String => spec_export_return_string(abi, ret, next),
        AbiTypeView::RefSlice(ty) => Lowered {
            next: next + 2,
            slots: seq![a, b],
            instr: seq![InstrView::LowerSlice(ret, a, b, ty)],
        },
        AbiTypeView::Vec(ty) => Lowered {
            next: next + 3,
            slots: seq![a, b, c],
            instr: seq![InstrView::LowerVec(ret, a, b, c, ty)],
        },
        AbiTypeView::RefObject(_) => Lowered {
            next: next + 1,
            slots: seq![a],
            instr: seq![InstrView::LowerRefObject(ret, a)],
        },
        AbiTypeView::Object(_) => Lowered {
            next: next + 1,
            slots: seq![a],
            instr: seq![InstrView::LowerObject(ret, a)],
        },
        AbiTypeView::Option(ty) => {
            let var = num_var(next, NumType::U8);
            let some = VarView { binding: next + 1, ty: *ty };
            let inner = spec_export_return(abi, some, next + 2);
            Lowered {
                next: inner.next,
                slots: seq![var] + inner.slots,
                instr: seq![InstrView::LowerOption(ret, var, some, inner.instr)],
            }
        },
        AbiTypeView::Result(ty) => {
            let var = num_var(next, NumType::U8);
            let ok = VarView { binding: next + 1, ty: *ty };
            let err = VarView { binding: next + 2, ty: AbiTypeView::String };
            let err_part = spec_export_return_string(abi, err, next + 3);
            let ok_part = spec_export_return(abi, ok, err_part.next);
            Lowered {
                next: ok_part.next,
                slots: seq![var] + err_part.slots + ok_part.slots,
                instr: seq![
                    InstrView::LowerResult(ret, var, ok, ok_part.instr, err, err_part.instr),
                ],
            }
        },
        AbiTypeView::RefFuture(ty) => Lowered {
            next: next + 1,
            slots: seq![a],
            instr: seq![InstrView::LowerRefFuture(ret, a, *ty)],
        },
        AbiTypeView::Future(ty) => Lowered {
            next: next + 1,
            slots: seq![a],
            instr: seq![InstrView::LowerFuture(ret, a, *ty)],
        },
        AbiTypeView::RefStream(ty) => Lowered {
            next: next + 1,
            slots: seq![a],
            instr: seq![InstrView::LowerRefStream(ret, a, *ty)],
        },
        AbiTypeView::Stream(ty) => Lowered {
            next: next + 1,
            slots: seq![a],
            instr: seq![InstrView::LowerStream(ret, a, *ty)],
        },
        AbiTypeView::Tuple(tys) => {
            let elems = spec_export_returns(abi, tys, tys.len(), next);
            Lowered {
                next: elems.next,
                slots: elems.slots,
                instr: seq![InstrView::LowerTuple(ret, elems.vars)] + elems.instr,
            }
        },
    }
}

/// The lowering of the first `n` of the given returned values: each gets a
/// fresh host slot and is then lowered from it, in order.
pub open spec fn spec_export_returns(
    abi: Abi,
    tys: Seq<AbiTypeView>,
    n: nat,
    next: nat,
) -> LoweredList
    decreases tys, n,
{
    if n == 0 || n > tys.len() {
        LoweredList { next, vars: Seq::empty(), slots: Seq::empty(), instr: Seq::empty() }
    } else {
        let before = spec_export_returns(abi, tys, (n - 1) as nat, next);
        let ret = VarView { binding: before.next, ty: tys[n - 1] };
        let this = spec_export_return(abi, ret, before.next + 1);
        LoweredList {
            next: this.next,
            vars: before.vars.push(ret),
            slots: before.slots + this.slots,
            instr: before.instr + this.instr,
        }
    }
}

/// The lifting of the implicit receiver of a method or a poll function:
/// host slot 0 is the borrowed receiver, built from the pointer in raw slot
/// 1. Other functions have no receiver.
pub open spec fn spec_export_receiver(abi: Abi, ty: FunctionTypeView) -> (
    Option<VarView>,
    Lowered,
) {
    let ptr = num_var(1, abi.iptr());
    match ty {
        FunctionTypeView::Method(object) => {
            let out = VarView { binding: 0, ty: AbiTypeView::RefObject(object) };
            (
                Some(out),
                Lowered {
                    next: 2,
                    slots: seq![ptr],
                    instr: seq![InstrView::LiftRefObject(ptr, out, object)],
                },
            )
        },
        FunctionTypeView::PollFuture(_, ty) => {
            let out = VarView { binding: 0, ty: AbiTypeView::RefFuture(Box::new(ty)) };
            (
                Some(out),
                Lowered {
                    next: 2,
                    slots: seq![ptr],
                    instr: seq![InstrView::LiftRefFuture(ptr, out, ty)],
                },
            )
        },
        FunctionTypeView::PollStream(_, ty) => {
            let out = VarView { binding: 0, ty: AbiTypeView::RefStream(Box::new(ty)) };
            (
                Some(out),
                Lowered {
                    next: 2,
                    slots: seq![ptr],
                    instr: seq![InstrView::LiftRefStream(ptr, out, ty)],
                },
            )
        },
        _ => (None, Lowered { next: 0, slots: Seq::empty(), instr: Seq::empty() }),
    }
}

/// The lowering of the returned value of a function whose arguments took
/// the bindings below `next`: the host slot of the result, if there is
/// one, and its lowering.
pub open spec fn spec_export_result(abi: Abi, ret: Option<AbiTypeView>, next: nat) -> (
    Option<VarView>,
    Lowered,
) {
    match ret {
        Some(ty) => {
            let var = VarView { binding: next, ty };
            (Some(var), spec_export_return(abi, var, next + 1))
        },
        None => (None, Lowered { next, slots: Seq::empty(), instr: Seq::empty() }),
    }
}

/// The export side of a function. Its program lifts the receiver, if
/// any, then each argument in order, calls the function on the host slots,
/// declares the raw return slots if there are any, and lowers the result
/// into them. The raw parameters are the slots of the receiver and of the
/// arguments; the raw return is made of the slots of the result.
pub open spec fn spec_export(abi: Abi, f: AbiFunctionView) -> ExportView {
    let (receiver, head) = spec_export_receiver(abi, f.ty);
    let tys = f.arg_types();
    let args = spec_export_args(abi, tys, tys.len(), head.next);
    let (result, tail) = spec_export_result(abi, f.ret, args.next);
    let call = InstrView::CallAbi(f.ty, receiver, f.name, result, args.vars);
    let define = if tail.slots.len() > 0 {
        seq![InstrView::DefineRets(tail.slots)]
    } else {
        Seq::empty()
    };
    ExportView {
        symbol: f.symbol(),
        ffi_args: head.slots + args.slots,
        instr: head.instr + args.instr + seq![call] + define + tail.instr,
        ffi_ret: f.ret(tail.slots),
    }
}

/// The number of slots that the export program of a function uses.
pub open spec fn spec_export_vars(abi: Abi, f: AbiFunctionView) -> nat {
    let head = spec_export_receiver(abi, f.ty).1;
    let tys = f.arg_types();
    let args = spec_export_args(abi, tys, tys.len(), head.next);
    spec_export_result(abi, f.ret, args.next).1.next
}

/// Whether a function can be exported: each argument type can be passed,
/// and the bindings of the program fit in 32 bits.
pub open spec fn exportable(abi: Abi, f: AbiFunctionView) -> bool {
    &&& AbiTypeView::args_supported(f.arg_types(), f.args.len())
    &&& spec_export_vars(abi, f) <= u32::MAX
}

/// Lifting an argument never gives bindings back.
pub proof fn lemma_export_arg_next(abi: Abi, out: VarView, next: nat)
    ensures
        spec_export_arg(abi, out, next).next >= next,
    decreases out.ty, 0nat,
{
    match out.ty {
        AbiTypeView::Option(ty) => {
            lemma_export_arg_next(abi, VarView { binding: next + 1, ty: *ty }, next + 2);
        },
        AbiTypeView::Tuple(tys) => {
            lemma_export_args_next(abi, tys, tys.len(), next);
        },
        _ => {},
    }
}

/// Lifting a list of arguments never gives bindings back, and lifting a
/// longer prefix consumes at least as many.
pub proof fn lemma_export_args_next(abi: Abi, tys: Seq<AbiTypeView>, n: nat, next: nat)
    ensures
        spec_export_args(abi, tys, n, next).next >= next,
        forall|m: nat|
            m <= n <= tys.len() ==> #[trigger] spec_export_args(abi, tys, m, next).next
                <= spec_export_args(abi, tys, n, next).next,
    decreases tys, n,
{
    if n == 0 || n > tys.len() {
    } else {
        let before = spec_export_args(abi, tys, (n - 1) as nat, next);
        lemma_export_args_next(abi, tys, (n - 1) as nat, next);
        lemma_export_arg_next(
            abi,
            VarView { binding: before.next, ty: tys[n - 1] },
            before.next + 1,
        );
    }
}

/// Lowering a returned value never gives bindings back.
pub proof fn lemma_export_return_next(abi: Abi, ret: VarView, next: nat)
    ensures
        spec_export_return(abi, ret, next).next >= next,
    decreases ret.ty, 0nat,
{
    match ret.ty {
        AbiTypeView::Option(ty) => {
            lemma_export_return_next(abi, VarView { binding: next + 1, ty: *ty }, next + 2);
        },
        AbiTypeView::Result(ty) => {
            lemma_export_return_next(abi, VarView { binding: next + 1, ty: *ty }, next + 6);
        },
        AbiTypeView::Tuple(tys) => {
            lemma_export_returns_next(abi, tys, tys.len(), next);
        },
        _ => {},
    }
}

/// Lowering a list of returned values never gives bindings back, and
/// lowering a longer prefix consumes at least as many.
pub proof fn lemma_export_returns_next(abi: Abi, tys: Seq<AbiTypeView>, n: nat, next: nat)
    ensures
        spec_export_returns(abi, tys, n, next).next >= next,
        forall|m: nat|
            m <= n <= tys.len() ==> #[trigger] spec_export_returns(abi, tys, m, next).next
                <= spec_export_returns(abi, tys, n, next).next,
    decreases tys, n,
{
    if n == 0 || n > tys.len() {
    } else {
        let before = spec_export_returns(abi, tys, (n - 1) as nat, next);
        lemma_export_returns_next(abi, tys, (n - 1) as nat, next);
        lemma_export_return_next(
            abi,
            VarView { binding: before.next, ty: tys[n - 1] },
            before.next + 1,
        );
    }
}

/// Lowering the result of a function never gives bindings back, and takes
/// at least one where there is a result.
pub proof fn lemma_export_result_next(abi: Abi, ret: Option<AbiTypeView>, next: nat)
    ensures
        spec_export_result(abi, ret, next).1.next >= next,
        ret is Some ==> spec_export_result(abi, ret, next).1.next > next,
{
    if let Some(ty) = ret {
        lemma_export_return_next(abi, VarView { binding: next, ty }, next + 1);
    }
}

/// Moves the steps of one program to the end of another.
pub fn append_instr(instr: &mut Vec<Instr>, tail: Vec<Instr>)
    ensures
        final(instr).deep_view() == old(instr).deep_view() + tail.deep_view(),
{
    let mut rest = tail;
    instr.append(&mut rest);
    assert(instr.deep_view() =~= old(instr).deep_view() + tail.deep_view());
}

/// Appends a step to a program.
pub fn emit(instr: &mut Vec<Instr>, step: Instr)
    ensures
        final(instr).deep_view() == old(instr).deep_view() + seq![step@],
{
    instr.push(step);
    assert(instr.deep_view() =~= old(instr).deep_view() + seq![step@]);
}

/// The nested program of a step has the value of the list that holds it.
pub proof fn lemma_models_deep_view(instr: Vec<Instr>)
    ensures
        Instr::models(instr@) == instr.deep_view(),
{
    reveal(Instr::model);
    assert(Instr::models(instr@) =~= instr.deep_view());
}

impl Abi {
    /// Lifts one argument: appends to `ffi_args` the raw slots that carry
    /// it and to `instr` the steps that build the host slot `out` from
    /// them.
    #[verifier::rlimit(40)]
    pub fn export_arg(
        self,
        out: Var,
        gen: &mut VarGen,
        instr: &mut Vec<Instr>,
        ffi_args: &mut Vec<Var>,
    )
        requires
            out.ty@.arg_supported(),
            spec_export_arg(self, out@, old(gen)@).next <= u32::MAX,
        ensures
            final(gen)@ == spec_export_arg(self, out@, old(gen)@).next,
            final(instr).deep_view() == old(instr).deep_view() + spec_export_arg(
                self,
                out@,
                old(gen)@,
            ).instr,
            final(ffi_args).deep_view() == old(ffi_args).deep_view() + spec_export_arg(
                self,
                out@,
                old(gen)@,
            ).slots,
        decreases out.ty@, 1nat,
    {
        match &out.ty {
            AbiType::Num(num) => {
                let arg = raw_slot(gen, ffi_args, *num);
                proof {
                    reveal(Instr::model);
                }
                emit(instr, Instr::LiftNum(arg, out));
            },
            AbiType::Isize => {
                let arg = raw_slot(gen, ffi_args, self.iptr());
                proof {
                    reveal(Instr::model);
                }
                emit(instr, Instr::LiftIsize(arg, out));
            },
            AbiType::Usize => {
                let arg = raw_slot(gen, ffi_args, self.uptr());
                proof {
                    reveal(Instr::model);
                }
                emit(instr, Instr::LiftUsize(arg, out));
            },
            AbiType::Bool => {
                let arg = raw_slot(gen, ffi_args, NumType::U8);
                proof {
                    reveal(Instr::model);
                }
                emit(instr, Instr::LiftBool(arg, out));
            },
            AbiType::RefStr => {
                let (ptr, len) = self.raw_ptr_len(gen, ffi_args);
                proof {
                    reveal(Instr::model);
                }
                emit(instr, Instr::LiftStr(ptr, len, out));
            },
            AbiType::String => {
                let (ptr, len, cap) = self.raw_ptr_len_cap(gen, ffi_args);
                proof {
                    reveal(Instr::model);
                }
                emit(instr, Instr::LiftString(ptr, len, cap, out));
            },
            AbiType::RefSlice(ty) => {
                let (ptr, len) = self.raw_ptr_len(gen, ffi_args);
                let ty = *ty;
                proof {
                    reveal(Instr::model);
                }
                emit(instr, Instr::LiftSlice(ptr, len, out, ty));
            },
            AbiType::Vec(ty) => {
                let (ptr, len, cap) = self.raw_ptr_len_cap(gen, ffi_args);
                let ty = *ty;
                proof {
                    reveal(Instr::model);
                }
                emit(instr, Instr::LiftVec(ptr, len, cap, out, ty));
            },
            AbiType::RefObject(object) => {
                let ptr = raw_slot(gen, ffi_args, self.iptr());
                let object = object.clone();
                proof {
                    reveal(Instr::model);
                }
                emit(instr, Instr::LiftRefObject(ptr, out, object));
            },
            AbiType::Object(object) => {
                let ptr = raw_slot(gen, ffi_args, self.iptr());
                let object = object.clone();
                proof {
                    reveal(Instr::model);
                }
                emit(instr, Instr::LiftObject(ptr, out, object));
            },
            AbiType::Option(_) => {
                self.export_option_arg(out, gen, instr, ffi_args);
            },
            AbiType::Result(_) => {
                assert(false);
            },
            AbiType::RefFuture(ty) => {
                let ptr = raw_slot(gen, ffi_args, self.iptr());
                let ty = (&**ty).clone();
                proof {
                    reveal(Instr::model);
                }
                emit(instr, Instr::LiftRefFuture(ptr, out, ty));
            },
            AbiType::Future(ty) => {
                let ptr = raw_slot(gen, ffi_args, self.iptr());
                let ty = (&**ty).clone();
                assert(Instr::LiftFuture(ptr, out, ty)@ == InstrView::LiftFuture(ptr@, out@, ty@))
                    by {
                    reveal(Instr::model);
                }
                emit(instr, Instr::LiftFuture(ptr, out, ty));
            },
            AbiType::RefStream(ty) => {
                let ptr = raw_slot(gen, ffi_args, self.iptr());
                let ty = (&**ty).clone();
                proof {
                    reveal(Instr::model);
                }
                emit(instr, Instr::LiftRefStream(ptr, out, ty));
            },
            AbiType::Stream(ty) => {
                let ptr = raw_slot(gen, ffi_args, self.iptr());
                let ty = (&**ty).clone();
                assert(Instr::LiftStream(ptr, out, ty)@ == InstrView::LiftStream(ptr@, out@, ty@))
                    by {
                    reveal(Instr::model);
                }
                emit(instr, Instr::LiftStream(ptr, out, ty));
            },
            AbiType::Tuple(_) => {
                self.export_tuple_arg(out, gen, instr, ffi_args);
            },
        }
    }

    /// Lifts an optional argument: the discriminant slot, then the payload
    /// in a nested program.
    fn export_option_arg(
        self,
        out: Var,
        gen: &mut VarGen,
        instr: &mut Vec<Instr>,
        ffi_args: &mut Vec<Var>,
    )
        requires
            out.ty@ is Option,
            out.ty@.arg_supported(),
            spec_export_arg(self, out@, old(gen)@).next <= u32::MAX,
        ensures
            final(gen)@ == spec_export_arg(self, out@, old(gen)@).next,
            final(instr).deep_view() == old(instr).deep_view() + spec_export_arg(
                self,
                out@,
                old(gen)@,
            ).instr,
            final(ffi_args).deep_view() == old(ffi_args).deep_view() + spec_export_arg(
                self,
                out@,
                old(gen)@,
            ).slots,
        decreases out.ty@, 0nat,
    {
        if let AbiType::Option(ty) = &out.ty {
            proof {
                lemma_export_arg_next(self, VarView { binding: gen@ + 1, ty: ty@ }, gen@ + 2);
            }
            let opt = raw_slot(gen, ffi_args, NumType::U8);
            let some = gen.gen((&**ty).clone());
            let mut some_instr: Vec<Instr> = Vec::new();
            self.export_arg(some.clone(), gen, &mut some_instr, ffi_args);
            assert(Instr::LiftOption(opt, out, some, some_instr)@ == InstrView::LiftOption(
                opt@,
                out@,
                some@,
                some_instr.deep_view(),
            )) by {
                reveal(Instr::model);
                lemma_models_deep_view(some_instr);
            }
            emit(instr, Instr::LiftOption(opt, out, some, some_instr));
        }
    }

    /// Lifts a tuple argument: each element into a fresh slot, then the
    /// tuple from those slots.
    fn export_tuple_arg(
        self,
        out: Var,
        gen: &mut VarGen,
        instr: &mut Vec<Instr>,
        ffi_args: &mut Vec<Var>,
    )
        requires
            out.ty@ is Tuple,
            out.ty@.arg_supported(),
            spec_export_arg(self, out@, old(gen)@).next <= u32::MAX,
        ensures
            final(gen)@ == spec_export_arg(self, out@, old(gen)@).next,
            final(instr).deep_view() == old(instr).deep_view() + spec_export_arg(
                self,
                out@,
                old(gen)@,
            ).instr,
            final(ffi_args).deep_view() == old(ffi_args).deep_view() + spec_export_arg(
                self,
                out@,
                old(gen)@,
            ).slots,
        decreases out.ty@, 0nat,
    {
        if let AbiType::Tuple(tys) = &out.ty {
            let ghost start = gen@;
            let ghost instr0 = instr.deep_view();
            let ghost args0 = ffi_args.deep_view();
            let ghost elems = tys.deep_view();
            let mut vars: Vec<Var> = Vec::new();
            let mut i: usize = 0;
            proof {
                lemma_tuple_view(*tys);
            }
            while i < tys.len()
                invariant
                    out.ty@ == AbiTypeView::Tuple(elems),
                    elems == tys.deep_view(),
                    i <= tys.len(),
                    out.ty@.arg_supported(),
                    spec_export_args(self, elems, tys.len() as nat, start).next <= u32::MAX,
                    gen@ == spec_export_args(self, elems, i as nat, start).next,
                    vars.deep_view() == spec_export_args(self, elems, i as nat, start).vars,
                    instr.deep_view() == instr0 + spec_export_args(
                        self,
                        elems,
                        i as nat,
                        start,
                    ).instr,
                    ffi_args.deep_view() == args0 + spec_export_args(
                        self,
                        elems,
                        i as nat,
                        start,
                    ).slots,
                decreases tys.len() - i,
            {
                proof {
                    lemma_args_supported(elems, tys.len() as nat, i as int);
                    lemma_export_args_next(self, elems, (i + 1) as nat, start);
                    lemma_export_args_next(self, elems, tys.len() as nat, start);
                    lemma_export_arg_next(
                        self,
                        VarView { binding: gen@, ty: tys[i as int]@ },
                        gen@ + 1,
                    );
                    assert(decreases_to!(out.ty@ => out.ty@->Tuple_0));
                    assert(decreases_to!(elems => elems[i as int]));
                }
                let arg = gen.gen(tys[i].clone());
                push_var(&mut vars, arg.clone());
                self.export_arg(arg, gen, instr, ffi_args);
                i += 1;
            }
            assert(Instr::LiftTuple(vars, out)@ == InstrView::LiftTuple(vars.deep_view(), out@))
                by {
                reveal(Instr::model);
            }
            emit(instr, Instr::LiftTuple(vars, out));
        }
    }

    /// Lowers a returned value: appends to `ffi_rets` the raw slots that
    /// carry it and to `instr` the steps that fill them from the host slot
    /// `ret`.
    #[verifier::rlimit(40)]
    pub fn export_return(
        self,
        ret: Var,
        gen: &mut VarGen,
        instr: &mut Vec<Instr>,
        ffi_rets: &mut Vec<Var>,
    )
        requires
            spec_export_return(self, ret@, old(gen)@).next <= u32::MAX,
        ensures
            final(gen)@ == spec_export_return(self, ret@, old(gen)@).next,
            final(instr).deep_view() == old(instr).deep_view() + spec_export_return(
                self,
                ret@,
                old(gen)@,
            ).instr,
            final(ffi_rets).deep_view() == old(ffi_rets).deep_view() + spec_export_return(
                self,
                ret@,
                old(gen)@,
            ).slots,
        decreases ret.ty@, 1nat,
    {
        match &ret.ty {
            AbiType::Num(num) => {
                let num_type = *num;
                if matches!(self, Abi::Wasm32) && matches!(num_type, NumType::U64 | NumType::I64) {
                    let low = raw_slot(gen, ffi_rets, self.uptr());
                    let high = raw_slot(gen, ffi_rets, self.uptr());
                    proof {
                        reveal(Instr::model);
                    }
                    assert(ffi_rets.deep_view() =~= old(ffi_rets).deep_view() + seq![low@, high@]);
                    emit(instr, Instr::LowerNumAsU32Tuple(ret, low, high, num_type));
                } else {
                    let out = raw_slot(gen, ffi_rets, num_type);
                    proof {
                        reveal(Instr::model);
                    }
                    emit(instr, Instr::LowerNum(ret, out));
                }
            },
            AbiType::Isize => {
                let out = raw_slot(gen, ffi_rets, self.iptr());
                proof {
                    reveal(Instr::model);
                }
                emit(instr, Instr::LowerIsize(ret, out));
            },
            AbiType::Usize => {
                let out = raw_slot(gen, ffi_rets, self.uptr());
                proof {
                    reveal(Instr::model);
                }
                emit(instr, Instr::LowerUsize(ret, out));
            },
            AbiType::Bool => {
                let out = raw_slot(gen, ffi_rets, NumType::U8);
                proof {
                    reveal(Instr::model);
                }
                emit(instr, Instr::LowerBool(ret, out));
            },
            AbiType::RefStr => {
                let (ptr, len) = self.raw_ptr_len(gen, ffi_rets);
                proof {
                    reveal(Instr::model);
                }
                emit(instr, Instr::LowerStr(ret, ptr, len));
            },
            AbiType::String => {
                self.export_return_string(ret, gen, instr, ffi_rets);
            },
            AbiType::RefSlice(ty) => {
                let (ptr, len) = self.raw_ptr_len(gen, ffi_rets);
                let ty = *ty;
                proof {
                    reveal(Instr::model);
                }
                emit(instr, Instr::LowerSlice(ret, ptr, len, ty));
            },
            AbiType::Vec(ty) => {
                let (ptr, len, cap) = self.raw_ptr_len_cap(gen, ffi_rets);
                let ty = *ty;
                proof {
                    reveal(Instr::model);
                }
                emit(instr, Instr::LowerVec(ret, ptr, len, cap, ty));
            },
            AbiType::RefObject(_) => {
                let ptr = raw_slot(gen, ffi_rets, self.iptr());
                proof {
                    reveal(Instr::model);
                }
                emit(instr, Instr::LowerRefObject(ret, ptr));
            },
            AbiType::Object(_) => {
                let ptr = raw_slot(gen, ffi_rets, self.iptr());
                proof {
                    reveal(Instr::model);
                }
                emit(instr, Instr::LowerObject(ret, ptr));
            },
            AbiType::Option(_) => {
                self.export_option_return(ret, gen, instr, ffi_rets);
            },
            AbiType::Result(_) => {
                self.export_result_return(ret, gen, instr, ffi_rets);
            },
            AbiType::RefFuture(ty) => {
                let ptr = raw_slot(gen, ffi_rets, self.iptr());
                let ty = (&**ty).clone();
                proof {
                    reveal(Instr::model);
                }
                emit(instr, Instr::LowerRefFuture(ret, ptr, ty));
            },
            AbiType::Future(ty) => {
                let ptr = raw_slot(gen, ffi_rets, self.iptr());
                let ty = (&**ty).clone();
                proof {
                    reveal(Instr::model);
                }
                emit(instr, Instr::LowerFuture(ret, ptr, ty));
            },
            AbiType::RefStream(ty) => {
                let ptr = raw_slot(gen, ffi_rets, self.iptr());
                let ty = (&**ty).clone();
                proof {
                    reveal(Instr::model);
                }
                emit(instr, Instr::LowerRefStream(ret, ptr, ty));
            },
            AbiType::Stream(ty) => {
                let ptr = raw_slot(gen, ffi_rets, self.iptr());
                let ty = (&**ty).clone();
                proof {
                    reveal(Instr::model);
                }
                emit(instr, Instr::LowerStream(ret, ptr, ty));
            },
            AbiType::Tuple(_) => {
                self.export_tuple_return(ret, gen, instr, ffi_rets);
            },
        }
    }

    /// Lowers returned text: pointer, length and capacity.
    fn export_return_string(
        self,
        ret: Var,
        gen: &mut VarGen,
        instr: &mut Vec<Instr>,
        ffi_rets: &mut Vec<Var>,
    )
        requires
            old(gen)@ + 3 <= u32::MAX,
        ensures
            final(gen)@ == spec_export_return_string(self, ret@, old(gen)@).next,
            final(instr).deep_view() == old(instr).deep_view() + spec_export_return_string(
                self,
                ret@,
                old(gen)@,
            ).instr,
            final(ffi_rets).deep_view() == old(ffi_rets).deep_view() + spec_export_return_string(
                self,
                ret@,
                old(gen)@,
            ).slots,
    {
        let (ptr, len, cap) = self.raw_ptr_len_cap(gen, ffi_rets);
        proof {
            reveal(Instr::model);
        }
        emit(instr, Instr::LowerString(ret, ptr, len, cap));
    }

    /// Lowers an optional returned value: the discriminant slot, then the
    /// payload in a nested program.
    fn export_option_return(
        self,
        ret: Var,
        gen: &mut VarGen,
        instr: &mut Vec<Instr>,
        ffi_rets: &mut Vec<Var>,
    )
        requires
            ret.ty@ is Option,
            spec_export_return(self, ret@, old(gen)@).next <= u32::MAX,
        ensures
            final(gen)@ == spec_export_return(self, ret@, old(gen)@).next,
            final(instr).deep_view() == old(instr).deep_view() + spec_export_return(
                self,
                ret@,
                old(gen)@,
            ).instr,
            final(ffi_rets).deep_view() == old(ffi_rets).deep_view() + spec_export_return(
                self,
                ret@,
                old(gen)@,
            ).slots,
        decreases ret.ty@, 0nat,
    {
        if let AbiType::Option(ty) = &ret.ty {
            proof {
                lemma_export_return_next(self, VarView { binding: gen@ + 1, ty: ty@ }, gen@ + 2);
            }
            let var = raw_slot(gen, ffi_rets, NumType::U8);
            let some = gen.gen((&**ty).clone());
            let mut some_instr: Vec<Instr> = Vec::new();
            self.export_return(some.clone(), gen, &mut some_instr, ffi_rets);
            assert(Instr::LowerOption(ret, var, some, some_instr)@ == InstrView::LowerOption(
                ret@,
                var@,
                some@,
                some_instr.deep_view(),
            )) by {
                reveal(Instr::model);
                lemma_models_deep_view(some_instr);
            }
            emit(instr, Instr::LowerOption(ret, var, some, some_instr));
        }
    }

    /// Lowers a fallible returned value: the discriminant slot, then the
    /// error text and the payload, each in a nested program.
    fn export_result_return(
        self,
        ret: Var,
        gen: &mut VarGen,
        instr: &mut Vec<Instr>,
        ffi_rets: &mut Vec<Var>,
    )
        requires
            ret.ty@ is Result,
            spec_export_return(self, ret@, old(gen)@).next <= u32::MAX,
        ensures
            final(gen)@ == spec_export_return(self, ret@, old(gen)@).next,
            final(instr).deep_view() == old(instr).deep_view() + spec_export_return(
                self,
                ret@,
                old(gen)@,
            ).instr,
            final(ffi_rets).deep_view() == old(ffi_rets).deep_view() + spec_export_return(
                self,
                ret@,
                old(gen)@,
            ).slots,
        decreases ret.ty@, 0nat,
    {
        if let AbiType::Result(ty) = &ret.ty {
            proof {
                lemma_export_return_next(self, VarView { binding: gen@ + 1, ty: ty@ }, gen@ + 6);
            }
            let var = raw_slot(gen, ffi_rets, NumType::U8);
            let ok = gen.gen((&**ty).clone());
            let err = gen.gen(AbiType::String);
            let mut err_instr: Vec<Instr> = Vec::new();
            self.export_return_string(err.clone(), gen, &mut err_instr, ffi_rets);
            let mut ok_instr: Vec<Instr> = Vec::new();
            self.export_return(ok.clone(), gen, &mut ok_instr, ffi_rets);
            assert(Instr::LowerResult(ret, var, ok, ok_instr, err, err_instr)@
                == InstrView::LowerResult(
                ret@,
                var@,
                ok@,
                ok_instr.deep_view(),
                err@,
                err_instr.deep_view(),
            )) by {
                reveal(Instr::model);
                lemma_models_deep_view(ok_instr);
                lemma_models_deep_view(err_instr);
            }
            emit(instr, Instr::LowerResult(ret, var, ok, ok_instr, err, err_instr));
        }
    }

    /// Lowers a returned tuple: the step that takes it apart, then each
    /// element from its fresh slot.
    fn export_tuple_return(
        self,
        ret: Var,
        gen: &mut VarGen,
        instr: &mut Vec<Instr>,
        ffi_rets: &mut Vec<Var>,
    )
        requires
            ret.ty@ is Tuple,
            spec_export_return(self, ret@, old(gen)@).next <= u32::MAX,
        ensures
            final(gen)@ == spec_export_return(self, ret@, old(gen)@).next,
            final(instr).deep_view() == old(instr).deep_view() + spec_export_return(
                self,
                ret@,
                old(gen)@,
            ).instr,
            final(ffi_rets).deep_view() == old(ffi_rets).deep_view() + spec_export_return(
                self,
                ret@,
                old(gen)@,
            ).slots,
        decreases ret.ty@, 0nat,
    {
        if let AbiType::Tuple(tys) = &ret.ty {
            let ghost start = gen@;
            let ghost rets0 = ffi_rets.deep_view();
            let ghost elems = tys.deep_view();
            let mut vars: Vec<Var> = Vec::new();
            let mut instr_inner: Vec<Instr> = Vec::new();
            let mut i: usize = 0;
            proof {
                lemma_tuple_view(*tys);
            }
            while i < tys.len()
                invariant
                    ret.ty@ == AbiTypeView::Tuple(elems),
                    elems == tys.deep_view(),
                    i <= tys.len(),
                    spec_export_returns(self, elems, tys.len() as nat, start).next <= u32::MAX,
                    gen@ == spec_export_returns(self, elems, i as nat, start).next,
                    vars.deep_view() == spec_export_returns(self, elems, i as nat, start).vars,
                    instr_inner.deep_view() == spec_export_returns(
                        self,
                        elems,
                        i as nat,
                        start,
                    ).instr,
                    ffi_rets.deep_view() == rets0 + spec_export_returns(
                        self,
                        elems,
                        i as nat,
                        start,
                    ).slots,
                decreases tys.len() - i,
            {
                proof {
                    lemma_export_returns_next(self, elems, (i + 1) as nat, start);
                    lemma_export_returns_next(self, elems, tys.len() as nat, start);
                    lemma_export_return_next(
                        self,
                        VarView { binding: gen@, ty: tys[i as int]@ },
                        gen@ + 1,
                    );
                    assert(decreases_to!(ret.ty@ => ret.ty@->Tuple_0));
                    assert(decreases_to!(elems => elems[i as int]));
                }
                let elem = gen.gen(tys[i].clone());
                push_var(&mut vars, elem.clone());
                self.export_return(elem, gen, &mut instr_inner, ffi_rets);
                i += 1;
            }
            assert(Instr::LowerTuple(ret, vars)@ == InstrView::LowerTuple(ret@, vars.deep_view()))
                by {
                reveal(Instr::model);
            }
            emit(instr, Instr::LowerTuple(ret, vars));
            append_instr(instr, instr_inner);
        }
    }

    /// Lifts the implicit receiver of a method or a poll function.
    fn export_receiver(
        self,
        ty: &FunctionType,
        gen: &mut VarGen,
        instr: &mut Vec<Instr>,
        ffi_args: &mut Vec<Var>,
    ) -> (receiver: Option<Var>)
        requires
            old(gen)@ == 0,
            old(instr)@.len() == 0,
            old(ffi_args)@.len() == 0,
        ensures
            receiver.deep_view() == spec_export_receiver(self, ty@).0,
            final(gen)@ == spec_export_receiver(self, ty@).1.next,
            final(instr).deep_view() == spec_export_receiver(self, ty@).1.instr,
            final(ffi_args).deep_view() == spec_export_receiver(self, ty@).1.slots,
    {
        assert(instr.deep_view() =~= Seq::empty());
        assert(ffi_args.deep_view() =~= Seq::empty());
        match ty {
            FunctionType::Method(object) => {
                let out = gen.gen(AbiType::RefObject(object.clone()));
                let ptr = raw_slot(gen, ffi_args, self.iptr());
                let object = object.clone();
                proof {
                    reveal(Instr::model);
                }
                let receiver = out.clone();
                emit(instr, Instr::LiftRefObject(ptr, out, object));
                Some(receiver)
            },
            FunctionType::PollFuture(_, ty) => {
                let out = gen.gen(AbiType::RefFuture(Box::new(ty.clone())));
                let ptr = raw_slot(gen, ffi_args, self.iptr());
                let ty = ty.clone();
                proof {
                    reveal(Instr::model);
                }
                let receiver = out.clone();
                emit(instr, Instr::LiftRefFuture(ptr, out, ty));
                Some(receiver)
            },
            FunctionType::PollStream(_, ty) => {
                let out = gen.gen(AbiType::RefStream(Box::new(ty.clone())));
                let ptr = raw_slot(gen, ffi_args, self.iptr());
                let ty = ty.clone();
                proof {
                    reveal(Instr::model);
                }
                let receiver = out.clone();
                emit(instr, Instr::LiftRefStream(ptr, out, ty));
                Some(receiver)
            },
            _ => None,
        }
    }

    /// Derives the export side of a function.
    #[verifier::rlimit(40)]
    pub fn export(self, func: &AbiFunction) -> (export: Export)
        requires
            exportable(self, func@),
        ensures
            export@ == spec_export(self, func@),
    {
        let mut gen = VarGen::new();
        let mut ffi_args: Vec<Var> = Vec::new();
        let mut ffi_rets: Vec<Var> = Vec::new();
        let mut abi_args: Vec<Var> = Vec::new();
        let mut instr: Vec<Instr> = Vec::new();
        let receiver = self.export_receiver(&func.ty, &mut gen, &mut instr, &mut ffi_args);
        let ghost head = spec_export_receiver(self, func.ty@).1;
        let ghost tys = func@.arg_types();
        proof {
            lemma_export_result_next(
                self,
                func@.ret,
                spec_export_args(self, tys, tys.len(), head.next).next,
            );
        }
        let mut i: usize = 0;
        while i < func.args.len()
            invariant
                i <= func.args.len(),
                tys == func@.arg_types(),
                tys.len() == func.args.len(),
                AbiTypeView::args_supported(tys, tys.len()),
                spec_export_args(self, tys, tys.len(), head.next).next <= u32::MAX,
                gen@ == spec_export_args(self, tys, i as nat, head.next).next,
                abi_args.deep_view() == spec_export_args(self, tys, i as nat, head.next).vars,
                instr.deep_view() == head.instr + spec_export_args(
                    self,
                    tys,
                    i as nat,
                    head.next,
                ).instr,
                ffi_args.deep_view() == head.slots + spec_export_args(
                    self,
                    tys,
                    i as nat,
                    head.next,
                ).slots,
            decreases func.args.len() - i,
        {
            proof {
                lemma_args_supported(tys, tys.len(), i as int);
                lemma_export_args_next(self, tys, (i + 1) as nat, head.next);
                lemma_export_args_next(self, tys, tys.len(), head.next);
                lemma_export_arg_next(
                    self,
                    VarView { binding: gen@, ty: func.args[i as int].1@ },
                    gen@ + 1,
                );
            }
            let out = gen.gen(func.args[i].1.clone());
            push_var(&mut abi_args, out.clone());
            self.export_arg(out, &mut gen, &mut instr, &mut ffi_args);
            i += 1;
        }
        let (abi_ret, result) = match &func.ret {
            Some(ty) => {
                let var = gen.gen(ty.clone());
                (Some(var.clone()), Some(var))
            },
            None => (None, None),
        };
        let name = func.name.clone();
        let ty = func.ty.clone();
        proof {
            reveal(Instr::model);
        }
        emit(&mut instr, Instr::CallAbi(ty, receiver, name, abi_ret, abi_args));
        if let Some(var) = result {
            let mut instr_ret: Vec<Instr> = Vec::new();
            self.export_return(var, &mut gen, &mut instr_ret, &mut ffi_rets);
            if !ffi_rets.is_empty() {
                let rets = clone_vars(&ffi_rets);
                proof {
                    reveal(Instr::model);
                }
                emit(&mut instr, Instr::DefineRets(rets));
            }
            append_instr(&mut instr, instr_ret);
        }
        Export { symbol: func.symbol(), instr, ffi_args, ffi_ret: func.ret(ffi_rets) }
    }
}

} // verus!
