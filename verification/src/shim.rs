//! The arguments by which multi-value returns are restored in a compiled
//! linear-memory module: for each function that returns an aggregate, its
//! symbol and the machine types of the fields.

use crate::abi::export::{
    exportable, spec_export, spec_export_args, spec_export_receiver, spec_export_result,
};
use crate::abi::symmetry::lemma_export_return_shape;
use crate::abi::{
    all_nums, Abi, AbiFunction, AbiFunctionView, NumType, Return, ReturnView, VarView,
};
use crate::parser::{Interface, InterfaceView};
use vstd::prelude::*;
use vstd::string::StringExecFns;

verus! {

/// The machine type that carries a number: 64 bits wide where the number
/// takes more than four bytes, else 32 bits wide. A space follows the
/// name.
pub open spec fn machine_type(abi: Abi, num: NumType) -> Seq<char> {
    if abi.slot_size(num) > 4 {
        "i64 "@
    } else {
        "i32 "@
    }
}

/// The machine types of the first `n` of the given number slots, in
/// order.
pub open spec fn machine_types(abi: Abi, slots: Seq<VarView>, n: nat) -> Seq<char>
    decreases n,
{
    if n == 0 || n > slots.len() {
        Seq::empty()
    } else {
        machine_types(abi, slots, (n - 1) as nat) + machine_type(abi, slots[n - 1].ty->Num_0)
    }
}

/// The argument for a function whose export side for the given convention
/// returns an aggregate: the symbol and the machine types of the fields,
/// in double quotes. Other functions need none.
pub open spec fn return_arg(abi: Abi, f: AbiFunctionView) -> Option<Seq<char>> {
    match spec_export(abi, f).ffi_ret {
        ReturnView::Struct(fields, _) => Some(
            "\""@ + spec_export(abi, f).symbol + " "@ + machine_types(abi, fields, fields.len())
                + "\""@,
        ),
        _ => None,
    }
}

/// The arguments for the first `n` of the given functions, in order.
pub open spec fn return_args(abi: Abi, fs: Seq<AbiFunctionView>, n: nat) -> Seq<Seq<char>>
    decreases n,
{
    if n == 0 || n > fs.len() {
        Seq::empty()
    } else {
        match return_arg(abi, fs[n - 1]) {
            Some(arg) => return_args(abi, fs, (n - 1) as nat).push(arg),
            None => return_args(abi, fs, (n - 1) as nat),
        }
    }
}

impl InterfaceView {
    /// The functions that the shim looks at: the methods of each object,
    /// then the free functions, then the poll function of each future.
    pub open spec fn shim_subjects(self) -> Seq<AbiFunctionView> {
        self.all_methods(self.objects.len()) + self.abi_functions() + Seq::new(
            self.abi_futures().len(),
            |i: int| self.abi_futures()[i].poll_future(),
        )
    }
}

/// The raw return slots of an exported function are number slots.
pub proof fn lemma_export_ret_nums(abi: Abi, f: AbiFunctionView)
    ensures
        all_nums(spec_export(abi, f).ffi_ret.slots()),
{
    let head = spec_export_receiver(abi, f.ty).1;
    let tys = f.arg_types();
    let args = spec_export_args(abi, tys, tys.len(), head.next);
    let tail = spec_export_result(abi, f.ret, args.next).1;
    if let Some(ty) = f.ret {
        lemma_export_return_shape(abi, VarView { binding: args.next, ty }, args.next + 1);
    }
    assert(f.ret(tail.slots).slots() =~= tail.slots);
}

/// Restores multi-value returns for the 32-bit linear-memory convention.
pub struct WasmMultiValueShim {
    abi: Abi,
}

impl WasmMultiValueShim {
    /// The convention that the shim works for.
    pub closed spec fn abi(&self) -> Abi {
        self.abi
    }

    /// Makes the shim for the 32-bit linear-memory convention.
    pub fn new() -> (shim: Self)
        ensures
            shim.abi() == Abi::Wasm32,
    {
        WasmMultiValueShim { abi: Abi::Wasm32 }
    }

    /// Whether the shim can look at every function of the interface.
    pub open spec fn supports(&self, iface: InterfaceView) -> bool {
        forall|i: int|
            0 <= i < iface.shim_subjects().len() ==> exportable(
                self.abi(),
                #[trigger] iface.shim_subjects()[i],
            )
    }

    /// Collects the functions that the shim looks at.
    fn subjects(iface: &Interface) -> (res: Vec<AbiFunction>)
        requires
            iface@.derivable(),
        ensures
            res.deep_view() == iface@.shim_subjects(),
    {
        let mut subjects = iface.all_methods();
        let mut free = iface.functions();
        let futures = iface.futures();
        let ghost functions = iface@.abi_functions();
        let ghost methods = iface@.all_methods(iface@.objects.len());
        subjects.append(&mut free);
        assert(subjects.deep_view() =~= methods + functions);
        let mut i: usize = 0;
        assert(subjects.deep_view() =~= methods + functions + Seq::new(
            0,
            |k: int| iface@.abi_futures()[k].poll_future(),
        ));
        while i < futures.len()
            invariant
                i <= futures.len(),
                futures.deep_view() == iface@.abi_futures(),
                functions == iface@.abi_functions(),
                methods == iface@.all_methods(iface@.objects.len()),
                subjects.deep_view() == methods + functions + Seq::new(
                    i as nat,
                    |k: int| iface@.abi_futures()[k].poll_future(),
                ),
            decreases futures.len() - i,
        {
            let ghost before = subjects.deep_view();
            let poll = futures[i].poll();
            subjects.push(poll);
            assert(subjects.deep_view() =~= before.push(poll@));
            i += 1;
        }
        subjects
    }

    /// Tells whether the shim can look at every function of the
    /// interface.
    pub fn can_generate(&self, iface: &Interface) -> (ok: bool)
        requires
            iface@.derivable(),
        ensures
            ok == self.supports(iface@),
    {
        let subjects = Self::subjects(iface);
        let mut i: usize = 0;
        while i < subjects.len()
            invariant
                i <= subjects.len(),
                subjects.deep_view() == iface@.shim_subjects(),
                forall|k: int|
                    0 <= k < i ==> exportable(self.abi(), #[trigger] iface@.shim_subjects()[k]),
            decreases subjects.len() - i,
        {
            assert(subjects[i as int]@ == iface@.shim_subjects()[i as int]);
            if !self.abi.can_export(&subjects[i]) {
                return false;
            }
            i += 1;
        }
        true
    }

    /// Lists the argument of each function of the interface that returns
    /// an aggregate.
    pub fn generate_args(&self, iface: &Interface) -> (args: Vec<String>)
        requires
            iface@.derivable(),
            self.supports(iface@),
        ensures
            args.deep_view() == return_args(
                self.abi(),
                iface@.shim_subjects(),
                iface@.shim_subjects().len(),
            ),
    {
        let subjects = Self::subjects(iface);
        let ghost fs = iface@.shim_subjects();
        let mut funcs: Vec<String> = Vec::new();
        let mut i: usize = 0;
        assert(funcs.deep_view() =~= return_args(self.abi(), fs, 0));
        while i < subjects.len()
            invariant
                i <= subjects.len(),
                fs == iface@.shim_subjects(),
                subjects.deep_view() == fs,
                self.supports(iface@),
                funcs.deep_view() == return_args(self.abi(), fs, i as nat),
            decreases subjects.len() - i,
        {
            assert(subjects[i as int]@ == fs[i as int]);
            assert(exportable(self.abi(), fs[i as int]));
            let ghost before = funcs.deep_view();
            if let Some(arg) = self.generate_return(&subjects[i]) {
                funcs.push(arg);
                assert(funcs.deep_view() =~= before.push(arg@));
            }
            i += 1;
        }
        funcs
    }

    /// Writes the argument for a function, if its export side returns an
    /// aggregate.
    pub fn generate_return(&self, func: &AbiFunction) -> (arg: Option<String>)
        requires
            exportable(self.abi(), func@),
        ensures
            arg.deep_view() == return_arg(self.abi(), func@),
    {
        let ffi = self.abi.export(func);
        proof {
            lemma_export_ret_nums(self.abi, func@);
        }
        match &ffi.ffi_ret {
            Return::Struct(fields, _) => {
                let ghost slots = fields.deep_view();
                let mut ret = String::new();
                let mut i: usize = 0;
                assert(ret@ =~= machine_types(self.abi(), slots, 0));
                while i < fields.len()
                    invariant
                        i <= fields.len(),
                        slots == fields.deep_view(),
                        all_nums(slots),
                        ret@ == machine_types(self.abi(), slots, i as nat),
                    decreases fields.len() - i,
                {
                    assert(slots[i as int].ty is Num);
                    let (size, _) = self.abi.layout(fields[i].ty.num());
                    if size > 4 {
                        ret.append("i64 ");
                    } else {
                        ret.append("i32 ");
                    }
                    i += 1;
                }
                let mut arg = String::from_str("\"");
                arg.append(ffi.symbol.as_str());
                arg.append(" ");
                arg.append(ret.as_str());
                arg.append("\"");
                Some(arg)
            },
            _ => None,
        }
    }
}

} // verus!
