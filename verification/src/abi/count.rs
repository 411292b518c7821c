//! How many slots a lowering uses, and whether a function can be lowered.

use crate::abi::export::{
    exportable, spec_export_arg, spec_export_args, spec_export_receiver, spec_export_return,
    spec_export_returns,
};
use crate::abi::import::{
    importable, spec_abi_args, spec_abi_ret, spec_import_arg, spec_import_args,
    spec_import_receiver, spec_import_return, spec_import_returns,
};
use crate::abi::{
    lemma_tuple_view, Abi, AbiFunction, AbiType, AbiTypeView, FunctionType, NumType, VarView,
};
use vstd::prelude::*;

verus! {

/// One of the four lowerings of a value.
#[derive(Clone, Copy, Debug, PartialEq, Eq, Structural)]
pub enum Pass {
    ExportArg,
    ExportReturn,
    ImportArg,
    ImportReturn,
}

impl Pass {
    /// Whether the pass lowers or lifts a returned value.
    pub open spec fn is_return(self) -> bool {
        self == Pass::ExportReturn || self == Pass::ImportReturn
    }
}

impl AbiTypeView {
    /// The number of slots that a pass makes for a value of the type,
    /// beside the host slot of the value itself.
    pub open spec fn vars(self, abi: Abi, pass: Pass) -> nat
        decreases self, 0nat,
    {
        match self {
            AbiTypeView::Num(num) => if pass.is_return() && Self::split_num(abi, num) {
                2
            } else {
                1
            },
            AbiTypeView::Isize | AbiTypeView::Usize | AbiTypeView::Bool => 1,
            AbiTypeView::RefStr | AbiTypeView::RefSlice(_) => if pass == Pass::ImportArg {
                3
            } else {
                2
            },
            AbiTypeView::String | AbiTypeView::Vec(_) => 3,
            AbiTypeView::Object(_) | AbiTypeView::Future(_) | AbiTypeView::Stream(_) => 1,
            AbiTypeView::RefObject(_)
            | AbiTypeView::RefFuture(_)
            | AbiTypeView::RefStream(_) => if pass == Pass::ImportReturn {
                0
            } else {
                1
            },
            AbiTypeView::Option(ty) => if pass == Pass::ImportReturn {
                1 + ty.vars(abi, pass)
            } else {
                2 + ty.vars(abi, pass)
            },
            AbiTypeView::Result(ty) => match pass {
                Pass::ExportReturn => 6 + ty.vars(abi, pass),
                Pass::ImportReturn => 4 + ty.vars(abi, pass),
                _ => 0,
            },
            AbiTypeView::Tuple(tys) => if pass == Pass::ImportArg {
                0
            } else {
                Self::vars_of(tys, tys.len(), abi, pass)
            },
        }
    }

    /// The number of slots that a pass makes for the first `n` of the
    /// given types, the host slot of each value included.
    pub open spec fn vars_of(tys: Seq<AbiTypeView>, n: nat, abi: Abi, pass: Pass) -> nat
        decreases tys, n,
    {
        if n == 0 || n > tys.len() {
            0
        } else {
            Self::vars_of(tys, (n - 1) as nat, abi, pass) + 1 + tys[n - 1].vars(abi, pass)
        }
    }
}

/// Lifting an argument takes as many bindings as [`AbiTypeView::vars`]
/// counts.
pub proof fn lemma_export_arg_vars(abi: Abi, out: VarView, next: nat)
    ensures
        spec_export_arg(abi, out, next).next == next + out.ty.vars(abi, Pass::ExportArg),
    decreases out.ty, 0nat,
{
    match out.ty {
        AbiTypeView::Option(ty) => {
            lemma_export_arg_vars(abi, VarView { binding: next + 1, ty: *ty }, next + 2);
        },
        AbiTypeView::Tuple(tys) => {
            lemma_export_args_vars(abi, tys, tys.len(), next);
        },
        _ => {},
    }
}

/// Lifting a list of arguments takes as many bindings as
/// [`AbiTypeView::vars_of`] counts.
pub proof fn lemma_export_args_vars(abi: Abi, tys: Seq<AbiTypeView>, n: nat, next: nat)
    ensures
        spec_export_args(abi, tys, n, next).next == next + AbiTypeView::vars_of(
            tys,
            n,
            abi,
            Pass::ExportArg,
        ),
    decreases tys, n,
{
    if n == 0 || n > tys.len() {
    } else {
        let before = spec_export_args(abi, tys, (n - 1) as nat, next);
        lemma_export_args_vars(abi, tys, (n - 1) as nat, next);
        lemma_export_arg_vars(
            abi,
            VarView { binding: before.next, ty: tys[n - 1] },
            before.next + 1,
        );
    }
}

/// Lowering a returned value takes as many bindings as
/// [`AbiTypeView::vars`] counts.
pub proof fn lemma_export_return_vars(abi: Abi, ret: VarView, next: nat)
    ensures
        spec_export_return(abi, ret, next).next == next + ret.ty.vars(abi, Pass::ExportReturn),
    decreases ret.ty, 0nat,
{
    match ret.ty {
        AbiTypeView::Option(ty) => {
            lemma_export_return_vars(abi, VarView { binding: next + 1, ty: *ty }, next + 2);
        },
        AbiTypeView::Result(ty) => {
            lemma_export_return_vars(abi, VarView { binding: next + 1, ty: *ty }, next + 6);
        },
        AbiTypeView::Tuple(tys) => {
            lemma_export_returns_vars(abi, tys, tys.len(), next);
        },
        _ => {},
    }
}

/// Lowering a list of returned values takes as many bindings as
/// [`AbiTypeView::vars_of`] counts.
pub proof fn lemma_export_returns_vars(abi: Abi, tys: Seq<AbiTypeView>, n: nat, next: nat)
    ensures
        spec_export_returns(abi, tys, n, next).next == next + AbiTypeView::vars_of(
            tys,
            n,
            abi,
            Pass::ExportReturn,
        ),
    decreases tys, n,
{
    if n == 0 || n > tys.len() {
    } else {
        let before = spec_export_returns(abi, tys, (n - 1) as nat, next);
        lemma_export_returns_vars(abi, tys, (n - 1) as nat, next);
        lemma_export_return_vars(
            abi,
            VarView { binding: before.next, ty: tys[n - 1] },
            before.next + 1,
        );
    }
}

/// Lowering an argument on the calling side takes as many bindings as
/// [`AbiTypeView::vars`] counts.
pub proof fn lemma_import_arg_vars(abi: Abi, arg: VarView, next: nat)
    ensures
        spec_import_arg(abi, arg, next).next == next + arg.ty.vars(abi, Pass::ImportArg),
    decreases arg.ty,
{
    match arg.ty {
        AbiTypeView::Option(ty) => {
            lemma_import_arg_vars(abi, VarView { binding: next + 1, ty: *ty }, next + 2);
        },
        _ => {},
    }
}

/// The types of a list of named arguments.
pub open spec fn types_of(args: Seq<(Seq<char>, AbiTypeView)>) -> Seq<AbiTypeView> {
    Seq::new(args.len(), |i: int| args[i].1)
}

/// Lowering a list of arguments on the calling side takes as many bindings
/// as [`AbiTypeView::vars_of`] counts.
pub proof fn lemma_import_args_vars(
    abi: Abi,
    args: Seq<(Seq<char>, AbiTypeView)>,
    n: nat,
    next: nat,
)
    ensures
        spec_import_args(abi, args, n, next).next == next + AbiTypeView::vars_of(
            types_of(args),
            n,
            abi,
            Pass::ImportArg,
        ),
    decreases n,
{
    if n == 0 || n > args.len() {
    } else {
        let before = spec_import_args(abi, args, (n - 1) as nat, next);
        lemma_import_args_vars(abi, args, (n - 1) as nat, next);
        lemma_import_arg_vars(
            abi,
            VarView { binding: before.next, ty: args[n - 1].1 },
            before.next + 1,
        );
    }
}

/// Lifting a returned value on the calling side takes as many bindings as
/// [`AbiTypeView::vars`] counts.
pub proof fn lemma_import_return_vars(
    abi: Abi,
    symbol: Seq<char>,
    ty: AbiTypeView,
    out: VarView,
    next: nat,
)
    ensures
        spec_import_return(abi, symbol, ty, out, next).next == next + ty.vars(
            abi,
            Pass::ImportReturn,
        ),
    decreases ty, 0nat,
{
    match ty {
        AbiTypeView::Option(inner) => {
            lemma_import_return_vars(abi, symbol, *inner, out, next + 1);
        },
        AbiTypeView::Result(inner) => {
            lemma_import_return_vars(abi, symbol, *inner, out, next + 4);
        },
        AbiTypeView::Tuple(tys) => {
            lemma_import_returns_vars(abi, symbol, tys, tys.len(), next);
        },
        _ => {},
    }
}

/// Lifting a list of returned values on the calling side takes as many
/// bindings as [`AbiTypeView::vars_of`] counts.
pub proof fn lemma_import_returns_vars(
    abi: Abi,
    symbol: Seq<char>,
    tys: Seq<AbiTypeView>,
    n: nat,
    next: nat,
)
    ensures
        spec_import_returns(abi, symbol, tys, n, next).next == next + AbiTypeView::vars_of(
            tys,
            n,
            abi,
            Pass::ImportReturn,
        ),
    decreases tys, n,
{
    if n == 0 || n > tys.len() {
    } else {
        let before = spec_import_returns(abi, symbol, tys, (n - 1) as nat, next);
        lemma_import_returns_vars(abi, symbol, tys, (n - 1) as nat, next);
        lemma_import_return_vars(
            abi,
            symbol,
            tys[n - 1],
            VarView { binding: before.next, ty: tys[n - 1] },
            before.next + 1,
        );
    }
}

/// One more than the greatest binding: a count of slots at or above it
/// does not fit.
pub const LIMIT: u64 = 0x1_0000_0000;

/// A count of slots, cut off at [`LIMIT`].
pub open spec fn capped(n: nat) -> nat {
    if n < LIMIT {
        n
    } else {
        LIMIT as nat
    }
}

/// Adds two cut-off counts.
fn add_capped(a: u64, b: u64) -> (sum: u64)
    requires
        a <= LIMIT,
        b <= LIMIT,
    ensures
        sum == capped((a + b) as nat),
{
    let sum = a + b;
    if sum < LIMIT {
        sum
    } else {
        LIMIT
    }
}

impl AbiType {
    /// Counts the slots that a pass makes for a value of the type, up to
    /// [`LIMIT`].
    pub fn vars(&self, abi: Abi, pass: Pass) -> (n: u64)
        ensures
            n == capped(self@.vars(abi, pass)),
        decreases self,
    {
        let is_return = matches!(pass, Pass::ExportReturn | Pass::ImportReturn);
        match self {
            AbiType::Num(num) => if is_return && matches!(abi, Abi::Wasm32) && matches!(
                num,
                NumType::U64 | NumType::I64
            ) {
                2
            } else {
                1
            },
            AbiType::Isize | AbiType::Usize | AbiType::Bool => 1,
            AbiType::RefStr | AbiType::RefSlice(_) => if matches!(pass, Pass::ImportArg) {
                3
            } else {
                2
            },
            AbiType::String | AbiType::Vec(_) => 3,
            AbiType::Object(_) | AbiType::Future(_) | AbiType::Stream(_) => 1,
            AbiType::RefObject(_) | AbiType::RefFuture(_) | AbiType::RefStream(_) => if matches!(
                pass,
                Pass::ImportReturn
            ) {
                0
            } else {
                1
            },
            AbiType::Option(ty) => {
                let inner = ty.vars(abi, pass);
                if matches!(pass, Pass::ImportReturn) {
                    add_capped(1, inner)
                } else {
                    add_capped(2, inner)
                }
            },
            AbiType::Result(ty) => match pass {
                Pass::ExportReturn => add_capped(6, ty.vars(abi, pass)),
                Pass::ImportReturn => add_capped(4, ty.vars(abi, pass)),
                _ => 0,
            },
            AbiType::Tuple(tys) => {
                proof {
                    lemma_tuple_view(*tys);
                }
                if matches!(pass, Pass::ImportArg) {
                    0
                } else {
                    let mut sum: u64 = 0;
                    let mut i: usize = 0;
                    while i < tys.len()
                        invariant
                            *self == AbiType::Tuple(*tys),
                            i <= tys.len(),
                            sum == capped(
                                AbiTypeView::vars_of(tys.deep_view(), i as nat, abi, pass),
                            ),
                        decreases tys.len() - i,
                    {
                        assert(decreases_to!(self => self->Tuple_0));
                        assert(decreases_to!(tys => tys[i as int]));
                        sum = add_capped(add_capped(sum, 1), tys[i].vars(abi, pass));
                        i += 1;
                    }
                    sum
                }
            },
        }
    }

    /// Tells whether a value of the type can be passed as an argument.
    pub fn arg_supported(&self) -> (ok: bool)
        ensures
            ok == self@.arg_supported(),
        decreases self,
    {
        match self {
            AbiType::Result(_) => false,
            AbiType::Option(ty) => ty.arg_supported(),
            AbiType::Tuple(tys) => {
                proof {
                    lemma_tuple_view(*tys);
                }
                let mut i: usize = 0;
                while i < tys.len()
                    invariant
                        *self == AbiType::Tuple(*tys),
                        self@ == AbiTypeView::Tuple(tys.deep_view()),
                        i <= tys.len(),
                        AbiTypeView::args_supported(tys.deep_view(), i as nat),
                    decreases tys.len() - i,
                {
                    assert(decreases_to!(self => self->Tuple_0));
                    assert(decreases_to!(tys => tys[i as int]));
                    if !tys[i].arg_supported() {
                        proof {
                            lemma_args_unsupported(tys.deep_view(), tys.len() as nat, i as int);
                        }
                        return false;
                    }
                    i += 1;
                }
                true
            },
            _ => true,
        }
    }

    /// Tells whether the calling side can pass a value of the type.
    pub fn import_arg_supported(&self) -> (ok: bool)
        ensures
            ok == self@.import_arg_supported(),
        decreases self,
    {
        match self {
            AbiType::Result(_) => false,
            AbiType::Tuple(_) => false,
            AbiType::Option(ty) => ty.import_arg_supported(),
            _ => true,
        }
    }

    /// Tells whether the calling side can take a returned value of the
    /// type.
    pub fn import_ret_supported(&self) -> (ok: bool)
        ensures
            ok == self@.import_ret_supported(),
        decreases self,
    {
        match self {
            AbiType::RefObject(_) | AbiType::RefFuture(_) | AbiType::RefStream(_) => false,
            AbiType::Option(ty) => ty.import_ret_supported(),
            AbiType::Result(ty) => ty.import_ret_supported(),
            AbiType::Tuple(tys) => {
                proof {
                    lemma_tuple_view(*tys);
                }
                let mut i: usize = 0;
                while i < tys.len()
                    invariant
                        *self == AbiType::Tuple(*tys),
                        self@ == AbiTypeView::Tuple(tys.deep_view()),
                        i <= tys.len(),
                        AbiTypeView::import_rets_supported(tys.deep_view(), i as nat),
                    decreases tys.len() - i,
                {
                    assert(decreases_to!(self => self->Tuple_0));
                    assert(decreases_to!(tys => tys[i as int]));
                    if !tys[i].import_ret_supported() {
                        proof {
                            lemma_import_rets_unsupported(
                                tys.deep_view(),
                                tys.len() as nat,
                                i as int,
                            );
                        }
                        return false;
                    }
                    i += 1;
                }
                true
            },
            _ => true,
        }
    }
}

impl Abi {
    /// Tells whether a function can be exported.
    pub fn can_export(self, func: &AbiFunction) -> (ok: bool)
        ensures
            ok == exportable(self, func@),
    {
        let ghost tys = func@.arg_types();
        let ghost head = spec_export_receiver(self, func.ty@).1;
        let mut total: u64 = match &func.ty {
            FunctionType::Method(_) | FunctionType::PollFuture(_, _) | FunctionType::PollStream(
                _,
                _,
            ) => 2,
            _ => 0,
        };
        let mut i: usize = 0;
        while i < func.args.len()
            invariant
                i <= func.args.len(),
                tys == func@.arg_types(),
                tys.len() == func.args.len(),
                AbiTypeView::args_supported(tys, i as nat),
                total == capped(
                    head.next + AbiTypeView::vars_of(tys, i as nat, self, Pass::ExportArg),
                ),
            decreases func.args.len() - i,
        {
            assert(tys[i as int] == func.args[i as int].1@);
            if !func.args[i].1.arg_supported() {
                proof {
                    lemma_args_unsupported(tys, tys.len(), i as int);
                }
                return false;
            }
            total = add_capped(add_capped(total, 1), func.args[i].1.vars(self, Pass::ExportArg));
            i += 1;
        }
        if let Some(ty) = &func.ret {
            total = add_capped(add_capped(total, 1), ty.vars(self, Pass::ExportReturn));
        }
        proof {
            lemma_export_args_vars(self, tys, tys.len(), head.next);
            if let Some(ty) = func@.ret {
                let next = spec_export_args(self, tys, tys.len(), head.next).next;
                lemma_export_return_vars(self, VarView { binding: next, ty }, next + 1);
            }
        }
        total <= 0xffff_ffff
    }

    /// Tells whether a function can be imported.
    pub fn can_import(self, func: &AbiFunction) -> (ok: bool)
        ensures
            ok == importable(self, func@),
    {
        let abi_args = Abi::abi_args(func);
        let abi_ret = Abi::abi_ret(func);
        let ghost args = spec_abi_args(func@);
        let ghost receiver = spec_import_receiver(self, func.ty@);
        let mut total: u64 = match &func.ty {
            FunctionType::Method(_) => 1,
            _ => 0,
        };
        let mut i: usize = 0;
        while i < abi_args.len()
            invariant
                i <= abi_args.len(),
                args == abi_args.deep_view(),
                args == spec_abi_args(func@),
                forall|j: int| 0 <= j < i ==> (#[trigger] args[j]).1.import_arg_supported(),
                total == capped(
                    receiver.next + AbiTypeView::vars_of(
                        types_of(args),
                        i as nat,
                        self,
                        Pass::ImportArg,
                    ),
                ),
            decreases abi_args.len() - i,
        {
            assert(args[i as int].1 == abi_args[i as int].1@);
            if !abi_args[i].1.import_arg_supported() {
                return false;
            }
            total = add_capped(add_capped(total, 1), abi_args[i].1.vars(self, Pass::ImportArg));
            i += 1;
        }
        if let Some(ty) = &abi_ret {
            if !ty.import_ret_supported() {
                return false;
            }
            total = add_capped(add_capped(total, 2), ty.vars(self, Pass::ImportReturn));
        }
        proof {
            lemma_import_args_vars(self, args, args.len(), receiver.next);
            let all = spec_import_args(self, args, args.len(), receiver.next);
            if let Some(ty) = spec_abi_ret(func@.ret) {
                lemma_import_return_vars(
                    self,
                    func@.symbol(),
                    ty,
                    VarView { binding: all.next + 1, ty },
                    all.next + 2,
                );
            }
        }
        total <= 0xffff_ffff
    }
}

/// Where one type of a prefix cannot be passed as an argument, the prefix
/// cannot.
pub proof fn lemma_args_unsupported(tys: Seq<AbiTypeView>, n: nat, i: int)
    requires
        0 <= i < n <= tys.len(),
        !tys[i].arg_supported(),
    ensures
        !AbiTypeView::args_supported(tys, n),
    decreases n,
{
    if i < n - 1 {
        lemma_args_unsupported(tys, (n - 1) as nat, i);
    }
}

/// Where one type of a prefix cannot be taken as a returned value, the
/// prefix cannot.
pub proof fn lemma_import_rets_unsupported(tys: Seq<AbiTypeView>, n: nat, i: int)
    requires
        0 <= i < n <= tys.len(),
        !tys[i].import_ret_supported(),
    ensures
        !AbiTypeView::import_rets_supported(tys, n),
    decreases n,
{
    if i < n - 1 {
        lemma_import_rets_unsupported(tys, (n - 1) as nat, i);
    }
}

} // verus!
