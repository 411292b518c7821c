//! The portable type model, the target model and the slot generator.

use vstd::prelude::*;
use vstd::string::StringExecFns;

pub mod cleanup;
pub mod count;
pub mod export;
pub mod fresh;
pub mod import;
pub mod raw;
pub mod signature;
pub mod symmetry;

verus! {

/// A fixed-width number type.
#[derive(Clone, Copy, Debug, PartialEq, Eq, Structural)]
pub enum NumType {
    U8,
    U16,
    U32,
    U64,
    I8,
    I16,
    I32,
    I64,
    F32,
    F64,
}

impl NumType {
    /// The width of the type in bytes, on every target.
    pub open spec fn natural_size(self) -> nat {
        match self {
            NumType::U8 | NumType::I8 => 1,
            NumType::U16 | NumType::I16 => 2,
            NumType::U32 | NumType::I32 | NumType::F32 => 4,
            NumType::U64 | NumType::I64 | NumType::F64 => 8,
        }
    }
}

/// The portable type of one argument, return value or payload.
#[derive(Debug, PartialEq, Eq)]
pub enum AbiType {
    Num(NumType),
    Usize,
    Isize,
    Bool,
    RefStr,
    String,
    RefSlice(NumType),
    Vec(NumType),
    RefObject(String),
    Object(String),
    Option(Box<AbiType>),
    Result(Box<AbiType>),
    RefFuture(Box<AbiType>),
    Future(Box<AbiType>),
    RefStream(Box<AbiType>),
    Stream(Box<AbiType>),
    Tuple(Vec<AbiType>),
}

/// The mathematical value of an [`AbiType`]: names are character sequences
/// and a tuple holds a sequence of element types.
pub enum AbiTypeView {
    Num(NumType),
    Usize,
    Isize,
    Bool,
    RefStr,
    String,
    RefSlice(NumType),
    Vec(NumType),
    RefObject(Seq<char>),
    Object(Seq<char>),
    Option(Box<AbiTypeView>),
    Result(Box<AbiTypeView>),
    RefFuture(Box<AbiTypeView>),
    Future(Box<AbiTypeView>),
    RefStream(Box<AbiTypeView>),
    Stream(Box<AbiTypeView>),
    Tuple(Seq<AbiTypeView>),
}

impl AbiType {
    /// The value of the type, computed by recursion on its structure.
    pub open spec fn model(&self) -> AbiTypeView
        decreases self,
    {
        match self {
            AbiType::Num(n) => AbiTypeView::Num(*n),
            AbiType::Usize => AbiTypeView::Usize,
            AbiType::Isize => AbiTypeView::Isize,
            AbiType::Bool => AbiTypeView::Bool,
            AbiType::RefStr => AbiTypeView::RefStr,
            AbiType::String => AbiTypeView::String,
            AbiType::RefSlice(n) => AbiTypeView::RefSlice(*n),
            AbiType::Vec(n) => AbiTypeView::Vec(*n),
            AbiType::RefObject(name) => AbiTypeView::RefObject(name@),
            AbiType::Object(name) => AbiTypeView::Object(name@),
            AbiType::Option(ty) => AbiTypeView::Option(Box::new((**ty).model())),
            AbiType::Result(ty) => AbiTypeView::Result(Box::new((**ty).model())),
            AbiType::RefFuture(ty) => AbiTypeView::RefFuture(Box::new((**ty).model())),
            AbiType::Future(ty) => AbiTypeView::Future(Box::new((**ty).model())),
            AbiType::RefStream(ty) => AbiTypeView::RefStream(Box::new((**ty).model())),
            AbiType::Stream(ty) => AbiTypeView::Stream(Box::new((**ty).model())),
            AbiType::Tuple(tys) => AbiTypeView::Tuple(
                Seq::new(
                    tys@.len(),
                    |i: int|
                        if 0 <= i < tys@.len() {
                            tys@[i].model()
                        } else {
                            AbiTypeView::Bool
                        },
                ),
            ),
        }
    }
}

impl View for AbiType {
    type V = AbiTypeView;

    open spec fn view(&self) -> AbiTypeView {
        self.model()
    }
}

impl DeepView for AbiType {
    type V = AbiTypeView;

    open spec fn deep_view(&self) -> AbiTypeView {
        self.view()
    }
}

impl Clone for AbiType {
    fn clone(&self) -> (res: Self)
        ensures
            res@ == self@,
        decreases self,
    {
        match self {
            AbiType::Num(n) => AbiType::Num(*n),
            AbiType::Usize => AbiType::Usize,
            AbiType::Isize => AbiType::Isize,
            AbiType::Bool => AbiType::Bool,
            AbiType::RefStr => AbiType::RefStr,
            AbiType::String => AbiType::String,
            AbiType::RefSlice(n) => AbiType::RefSlice(*n),
            AbiType::Vec(n) => AbiType::Vec(*n),
            AbiType::RefObject(name) => AbiType::RefObject(name.clone()),
            AbiType::Object(name) => AbiType::Object(name.clone()),
            AbiType::Option(ty) => AbiType::Option(Box::new((&**ty).clone())),
            AbiType::Result(ty) => AbiType::Result(Box::new((&**ty).clone())),
            AbiType::RefFuture(ty) => AbiType::RefFuture(Box::new((&**ty).clone())),
            AbiType::Future(ty) => AbiType::Future(Box::new((&**ty).clone())),
            AbiType::RefStream(ty) => AbiType::RefStream(Box::new((&**ty).clone())),
            AbiType::Stream(ty) => AbiType::Stream(Box::new((&**ty).clone())),
            AbiType::Tuple(tys) => {
                let mut out: Vec<AbiType> = Vec::new();
                let mut i: usize = 0;
                while i < tys.len()
                    invariant
                        *self == AbiType::Tuple(*tys),
                        i <= tys.len(),
                        out.len() == i,
                        forall|j: int| 0 <= j < i ==> out[j]@ == tys[j]@,
                    decreases tys.len() - i,
                {
                    assert(decreases_to!(self => self->Tuple_0));
                    assert(decreases_to!(tys => tys[i as int]));
                    out.push(tys[i].clone());
                    i += 1;
                }
                assert(AbiType::Tuple(out)@ =~= self@) by {
                    assert(AbiType::Tuple(out)@->Tuple_0 =~= self@->Tuple_0);
                }
                AbiType::Tuple(out)
            }
        }
    }
}

impl AbiType {
    /// The number type of a `Num`.
    pub fn num(&self) -> (num: NumType)
        requires
            self@ is Num,
        ensures
            self@ == AbiTypeView::Num(num),
    {
        match self {
            AbiType::Num(num) => *num,
            _ => {
                assert(false);
                NumType::U8
            },
        }
    }
}

/// The value of a tuple type holds the values of its element types.
pub proof fn lemma_tuple_view(tys: Vec<AbiType>)
    ensures
        AbiType::Tuple(tys)@ == AbiTypeView::Tuple(tys.deep_view()),
{
    assert(AbiType::Tuple(tys)@->Tuple_0 =~= tys.deep_view());
}

/// Where a prefix of a list of types can be passed as arguments, each
/// type in it can.
pub proof fn lemma_args_supported(tys: Seq<AbiTypeView>, n: nat, i: int)
    requires
        AbiTypeView::args_supported(tys, n),
        0 <= i < n <= tys.len(),
    ensures
        tys[i].arg_supported(),
    decreases n,
{
    if i < n - 1 {
        lemma_args_supported(tys, (n - 1) as nat, i);
    }
}

impl AbiTypeView {
    /// Whether a value of the type can be passed as an argument: a `Result`
    /// cannot, nor a type that holds one.
    pub open spec fn arg_supported(self) -> bool
        decreases self, 0nat,
    {
        match self {
            AbiTypeView::Result(_) => false,
            AbiTypeView::Option(ty) => ty.arg_supported(),
            AbiTypeView::Tuple(tys) => Self::args_supported(tys, tys.len()),
            _ => true,
        }
    }

    /// Whether each of the first `n` types can be passed as an argument.
    pub open spec fn args_supported(tys: Seq<AbiTypeView>, n: nat) -> bool
        decreases tys, n,
    {
        if n == 0 || n > tys.len() {
            true
        } else {
            Self::args_supported(tys, (n - 1) as nat) && tys[n - 1].arg_supported()
        }
    }

    /// The raw slots of an argument of the type, in order: one slot for a
    /// number, a boolean or a handle; pointer and length for borrowed text
    /// or a borrowed slice, with a capacity for the owned forms; one
    /// discriminant byte before the slots of an optional value; the slots
    /// of the elements of a tuple one after another.
    pub open spec fn arg_shape(self, abi: Abi) -> Seq<NumType>
        decreases self, 0nat,
    {
        match self {
            AbiTypeView::Num(num) => seq![num],
            AbiTypeView::Isize => seq![abi.iptr()],
            AbiTypeView::Usize => seq![abi.uptr()],
            AbiTypeView::Bool => seq![NumType::U8],
            AbiTypeView::RefStr => seq![abi.iptr(), abi.uptr()],
            AbiTypeView::String => seq![abi.iptr(), abi.uptr(), abi.uptr()],
            AbiTypeView::RefSlice(_) => seq![abi.iptr(), abi.uptr()],
            AbiTypeView::Vec(_) => seq![abi.iptr(), abi.uptr(), abi.uptr()],
            AbiTypeView::RefObject(_) => seq![abi.iptr()],
            AbiTypeView::Object(_) => seq![abi.iptr()],
            AbiTypeView::Option(ty) => seq![NumType::U8] + ty.arg_shape(abi),
            AbiTypeView::Result(_) => Seq::empty(),
            AbiTypeView::RefFuture(_) => seq![abi.iptr()],
            AbiTypeView::Future(_) => seq![abi.iptr()],
            AbiTypeView::RefStream(_) => seq![abi.iptr()],
            AbiTypeView::Stream(_) => seq![abi.iptr()],
            AbiTypeView::Tuple(tys) => Self::args_shape(tys, tys.len(), abi),
        }
    }

    /// The raw slots of the first `n` of the given argument types.
    pub open spec fn args_shape(tys: Seq<AbiTypeView>, n: nat, abi: Abi) -> Seq<NumType>
        decreases tys, n,
    {
        if n == 0 || n > tys.len() {
            Seq::empty()
        } else {
            Self::args_shape(tys, (n - 1) as nat, abi) + tys[n - 1].arg_shape(abi)
        }
    }

    /// Whether a number of the type is returned as two 32-bit halves.
    pub open spec fn split_num(abi: Abi, num: NumType) -> bool {
        abi == Abi::Wasm32 && (num == NumType::U64 || num == NumType::I64)
    }

    /// The raw slots of a returned value of the type, in order. They are
    /// those of an argument, but for a 64-bit integer on the 32-bit
    /// linear-memory target, which is returned as a low and a high half,
    /// and for a `Result`: one discriminant byte, then the slots of the
    /// error text, then those of the payload.
    pub open spec fn ret_shape(self, abi: Abi) -> Seq<NumType>
        decreases self, 0nat,
    {
        match self {
            AbiTypeView::Num(num) => if Self::split_num(abi, num) {
                seq![abi.uptr(), abi.uptr()]
            } else {
                seq![num]
            },
            AbiTypeView::Isize => seq![abi.iptr()],
            AbiTypeView::Usize => seq![abi.uptr()],
            AbiTypeView::Bool => seq![NumType::U8],
            AbiTypeView::RefStr => seq![abi.iptr(), abi.uptr()],
            AbiTypeView::String => seq![abi.iptr(), abi.uptr(), abi.uptr()],
            AbiTypeView::RefSlice(_) => seq![abi.iptr(), abi.uptr()],
            AbiTypeView::Vec(_) => seq![abi.iptr(), abi.uptr(), abi.uptr()],
            AbiTypeView::RefObject(_) => seq![abi.iptr()],
            AbiTypeView::Object(_) => seq![abi.iptr()],
            AbiTypeView::Option(ty) => seq![NumType::U8] + ty.ret_shape(abi),
            AbiTypeView::Result(ty) => seq![NumType::U8, abi.iptr(), abi.uptr(), abi.uptr()]
                + ty.ret_shape(abi),
            AbiTypeView::RefFuture(_) => seq![abi.iptr()],
            AbiTypeView::Future(_) => seq![abi.iptr()],
            AbiTypeView::RefStream(_) => seq![abi.iptr()],
            AbiTypeView::Stream(_) => seq![abi.iptr()],
            AbiTypeView::Tuple(tys) => Self::rets_shape(tys, tys.len(), abi),
        }
    }

    /// The raw slots of the first `n` of the given returned types.
    pub open spec fn rets_shape(tys: Seq<AbiTypeView>, n: nat, abi: Abi) -> Seq<NumType>
        decreases tys, n,
    {
        if n == 0 || n > tys.len() {
            Seq::empty()
        } else {
            Self::rets_shape(tys, (n - 1) as nat, abi) + tys[n - 1].ret_shape(abi)
        }
    }
}

/// The number types of a list of number slots.
pub open spec fn slot_nums(slots: Seq<VarView>) -> Seq<NumType> {
    Seq::new(slots.len(), |i: int| slots[i].ty->Num_0)
}

/// Whether every slot of the list holds a number.
pub open spec fn all_nums(slots: Seq<VarView>) -> bool {
    forall|i: int| 0 <= i < slots.len() ==> (#[trigger] slots[i]).ty is Num
}

/// What kind of callable an [`AbiFunction`] is. A method and the two poll
/// kinds take an implicit receiver, which is lowered first.
#[derive(Debug, PartialEq, Eq)]
pub enum FunctionType {
    Constructor(String),
    Method(String),
    Function,
    PollFuture(String, AbiType),
    PollStream(String, AbiType),
}

/// The value of a [`FunctionType`].
pub enum FunctionTypeView {
    Constructor(Seq<char>),
    Method(Seq<char>),
    Function,
    PollFuture(Seq<char>, AbiTypeView),
    PollStream(Seq<char>, AbiTypeView),
}

impl View for FunctionType {
    type V = FunctionTypeView;

    open spec fn view(&self) -> FunctionTypeView {
        match self {
            FunctionType::Constructor(object) => FunctionTypeView::Constructor(object@),
            FunctionType::Method(object) => FunctionTypeView::Method(object@),
            FunctionType::Function => FunctionTypeView::Function,
            FunctionType::PollFuture(symbol, ty) => FunctionTypeView::PollFuture(symbol@, ty@),
            FunctionType::PollStream(symbol, ty) => FunctionTypeView::PollStream(symbol@, ty@),
        }
    }
}

impl DeepView for FunctionType {
    type V = FunctionTypeView;

    open spec fn deep_view(&self) -> FunctionTypeView {
        self.view()
    }
}

impl Clone for FunctionType {
    fn clone(&self) -> (res: Self)
        ensures
            res@ == self@,
    {
        match self {
            FunctionType::Constructor(object) => FunctionType::Constructor(object.clone()),
            FunctionType::Method(object) => FunctionType::Method(object.clone()),
            FunctionType::Function => FunctionType::Function,
            FunctionType::PollFuture(symbol, ty) => FunctionType::PollFuture(
                symbol.clone(),
                ty.clone(),
            ),
            FunctionType::PollStream(symbol, ty) => FunctionType::PollStream(
                symbol.clone(),
                ty.clone(),
            ),
        }
    }
}

/// A typed slot of a marshaling program, identified by its binding.
#[derive(Debug, PartialEq, Eq)]
pub struct Var {
    pub binding: u32,
    pub ty: AbiType,
}

/// The value of a [`Var`].
pub struct VarView {
    pub binding: nat,
    pub ty: AbiTypeView,
}

impl View for Var {
    type V = VarView;

    open spec fn view(&self) -> VarView {
        VarView { binding: self.binding as nat, ty: self.ty@ }
    }
}

impl DeepView for Var {
    type V = VarView;

    open spec fn deep_view(&self) -> VarView {
        self.view()
    }
}

impl Clone for Var {
    fn clone(&self) -> (res: Self)
        ensures
            res@ == self@,
    {
        Var { binding: self.binding, ty: self.ty.clone() }
    }
}

/// A slot that holds a number.
pub open spec fn num_var(binding: nat, num: NumType) -> VarView {
    VarView { binding, ty: AbiTypeView::Num(num) }
}

/// The flat return of a lowered function: nothing, one number, or an
/// aggregate of several numbers under a name derived from the symbol.
#[derive(Debug, PartialEq, Eq)]
pub enum Return {
    Void,
    Num(Var),
    Struct(Vec<Var>, String),
}

/// The value of a [`Return`].
pub enum ReturnView {
    Void,
    Num(VarView),
    Struct(Seq<VarView>, Seq<char>),
}

impl View for Return {
    type V = ReturnView;

    open spec fn view(&self) -> ReturnView {
        match self {
            Return::Void => ReturnView::Void,
            Return::Num(var) => ReturnView::Num(var@),
            Return::Struct(vars, name) => ReturnView::Struct(vars.deep_view(), name@),
        }
    }
}

impl DeepView for Return {
    type V = ReturnView;

    open spec fn deep_view(&self) -> ReturnView {
        self.view()
    }
}

impl Clone for Return {
    fn clone(&self) -> (res: Self)
        ensures
            res@ == self@,
    {
        match self {
            Return::Void => Return::Void,
            Return::Num(var) => Return::Num(var.clone()),
            Return::Struct(vars, name) => Return::Struct(clone_vars(vars), name.clone()),
        }
    }
}

impl ReturnView {
    /// The slots that cross the boundary, in order.
    pub open spec fn slots(self) -> Seq<VarView> {
        match self {
            ReturnView::Void => Seq::empty(),
            ReturnView::Num(var) => seq![var],
            ReturnView::Struct(vars, _) => vars,
        }
    }
}

/// Copies a list of slots.
pub fn clone_vars(vars: &Vec<Var>) -> (res: Vec<Var>)
    ensures
        res.deep_view() == vars.deep_view(),
{
    let mut out: Vec<Var> = Vec::new();
    let mut i: usize = 0;
    while i < vars.len()
        invariant
            i <= vars.len(),
            out.len() == i,
            forall|j: int| 0 <= j < i ==> out[j]@ == vars[j]@,
        decreases vars.len() - i,
    {
        out.push(vars[i].clone());
        i += 1;
    }
    out
}

/// Copies a list of strings.
pub fn clone_strings(strings: &Vec<String>) -> (res: Vec<String>)
    ensures
        res.deep_view() == strings.deep_view(),
{
    let mut out: Vec<String> = Vec::new();
    let mut i: usize = 0;
    while i < strings.len()
        invariant
            i <= strings.len(),
            out.len() == i,
            forall|j: int| 0 <= j < i ==> out[j]@ == strings[j]@,
        decreases strings.len() - i,
    {
        out.push(strings[i].clone());
        i += 1;
    }
    out
}

/// Copies a list of named types.
pub fn clone_args(args: &Vec<(String, AbiType)>) -> (res: Vec<(String, AbiType)>)
    ensures
        res.deep_view() == args.deep_view(),
{
    let mut out: Vec<(String, AbiType)> = Vec::new();
    let mut i: usize = 0;
    while i < args.len()
        invariant
            i <= args.len(),
            out.len() == i,
            forall|j: int| 0 <= j < i ==> out[j].deep_view() == args[j].deep_view(),
        decreases args.len() - i,
    {
        out.push((args[i].0.clone(), args[i].1.clone()));
        i += 1;
    }
    out
}

/// A function of the interface in normal form: a free function, a method
/// or constructor of an object, or the poll function of a future or stream.
#[derive(Debug, PartialEq, Eq)]
pub struct AbiFunction {
    pub doc: Vec<String>,
    pub ty: FunctionType,
    pub name: String,
    pub args: Vec<(String, AbiType)>,
    pub ret: Option<AbiType>,
}

/// The value of an [`AbiFunction`].
pub struct AbiFunctionView {
    pub doc: Seq<Seq<char>>,
    pub ty: FunctionTypeView,
    pub name: Seq<char>,
    pub args: Seq<(Seq<char>, AbiTypeView)>,
    pub ret: Option<AbiTypeView>,
}

impl View for AbiFunction {
    type V = AbiFunctionView;

    open spec fn view(&self) -> AbiFunctionView {
        AbiFunctionView {
            doc: self.doc.deep_view(),
            ty: self.ty@,
            name: self.name@,
            args: self.args.deep_view(),
            ret: self.ret.deep_view(),
        }
    }
}

impl DeepView for AbiFunction {
    type V = AbiFunctionView;

    open spec fn deep_view(&self) -> AbiFunctionView {
        self.view()
    }
}

impl Clone for AbiFunction {
    fn clone(&self) -> (res: Self)
        ensures
            res@ == self@,
    {
        AbiFunction {
            doc: clone_strings(&self.doc),
            ty: self.ty.clone(),
            name: self.name.clone(),
            args: clone_args(&self.args),
            ret: match &self.ret {
                Some(ty) => Some(ty.clone()),
                None => None,
            },
        }
    }
}

impl AbiFunctionView {
    /// The types of the arguments, in order.
    pub open spec fn arg_types(self) -> Seq<AbiTypeView> {
        Seq::new(self.args.len(), |i: int| self.args[i].1)
    }

    /// The flat symbol under which the function is exposed: `__<name>` for
    /// a free function, `__<object>_<name>` for a method or constructor,
    /// and the origin's symbol followed by `_future_<name>` or
    /// `_stream_<name>` for a poll function.
    pub open spec fn symbol(self) -> Seq<char> {
        match self.ty {
            FunctionTypeView::Constructor(object) => "__"@ + object + "_"@ + self.name,
            FunctionTypeView::Method(object) => "__"@ + object + "_"@ + self.name,
            FunctionTypeView::Function => "__"@ + self.name,
            FunctionTypeView::PollFuture(symbol, _) => symbol + "_future_"@ + self.name,
            FunctionTypeView::PollStream(symbol, _) => symbol + "_stream_"@ + self.name,
        }
    }

    /// The return descriptor for the given raw return slots: none is
    /// `Void`, one is `Num`, more are a `Struct` named `<symbol>Return`.
    pub open spec fn ret(self, rets: Seq<VarView>) -> ReturnView {
        if rets.len() == 0 {
            ReturnView::Void
        } else if rets.len() == 1 {
            ReturnView::Num(rets[0])
        } else {
            ReturnView::Struct(rets, self.symbol() + "Return"@)
        }
    }
}

impl AbiFunction {
    /// Returns the flat symbol under which the function is exposed.
    pub fn symbol(&self) -> (symbol: String)
        ensures
            symbol@ == self@.symbol(),
    {
        match &self.ty {
            FunctionType::Constructor(object) | FunctionType::Method(object) => {
                let mut s = String::from_str("__");
                s.append(object.as_str());
                s.append("_");
                s.append(self.name.as_str());
                s
            },
            FunctionType::Function => {
                let mut s = String::from_str("__");
                s.append(self.name.as_str());
                s
            },
            FunctionType::PollFuture(symbol, _) => {
                let mut s = symbol.clone();
                s.append("_future_");
                s.append(self.name.as_str());
                s
            },
            FunctionType::PollStream(symbol, _) => {
                let mut s = symbol.clone();
                s.append("_stream_");
                s.append(self.name.as_str());
                s
            },
        }
    }

    /// Makes the return descriptor for the given raw return slots.
    pub fn ret(&self, rets: Vec<Var>) -> (ret: Return)
        ensures
            ret@ == self@.ret(rets.deep_view()),
    {
        if rets.len() == 0 {
            Return::Void
        } else if rets.len() == 1 {
            Return::Num(rets[0].clone())
        } else {
            let mut name = self.symbol();
            name.append("Return");
            Return::Struct(rets, name)
        }
    }
}

/// An object type of the interface with its methods and the symbol of its
/// destructor.
#[derive(Debug, PartialEq, Eq)]
pub struct AbiObject {
    pub doc: Vec<String>,
    pub name: String,
    pub methods: Vec<AbiFunction>,
    pub destructor: String,
}

/// The value of an [`AbiObject`].
pub struct AbiObjectView {
    pub doc: Seq<Seq<char>>,
    pub name: Seq<char>,
    pub methods: Seq<AbiFunctionView>,
    pub destructor: Seq<char>,
}

impl View for AbiObject {
    type V = AbiObjectView;

    open spec fn view(&self) -> AbiObjectView {
        AbiObjectView {
            doc: self.doc.deep_view(),
            name: self.name@,
            methods: self.methods.deep_view(),
            destructor: self.destructor@,
        }
    }
}

impl DeepView for AbiObject {
    type V = AbiObjectView;

    open spec fn deep_view(&self) -> AbiObjectView {
        self.view()
    }
}

/// Copies a list of functions.
pub fn clone_functions(items: &Vec<AbiFunction>) -> (res: Vec<AbiFunction>)
    ensures
        res.deep_view() == items.deep_view(),
{
    let mut out: Vec<AbiFunction> = Vec::new();
    let mut i: usize = 0;
    while i < items.len()
        invariant
            i <= items.len(),
            out.len() == i,
            forall|j: int| 0 <= j < i ==> out[j]@ == items[j]@,
        decreases items.len() - i,
    {
        out.push(items[i].clone());
        i += 1;
    }
    out
}

impl Clone for AbiObject {
    fn clone(&self) -> (res: Self)
        ensures
            res@ == self@,
    {
        AbiObject {
            doc: clone_strings(&self.doc),
            name: self.name.clone(),
            methods: clone_functions(&self.methods),
            destructor: self.destructor.clone(),
        }
    }
}

/// A future that some function returns: its payload type and the symbol of
/// the function it comes from.
#[derive(Debug, PartialEq, Eq)]
pub struct AbiFuture {
    pub ty: AbiType,
    pub symbol: String,
}

/// A stream that some function returns: its item type and the symbol of
/// the function it comes from.
#[derive(Debug, PartialEq, Eq)]
pub struct AbiStream {
    pub ty: AbiType,
    pub symbol: String,
}

/// The value of an [`AbiFuture`] or an [`AbiStream`].
pub struct AsyncView {
    pub ty: AbiTypeView,
    pub symbol: Seq<char>,
}

impl View for AbiFuture {
    type V = AsyncView;

    open spec fn view(&self) -> AsyncView {
        AsyncView { ty: self.ty@, symbol: self.symbol@ }
    }
}

impl DeepView for AbiFuture {
    type V = AsyncView;

    open spec fn deep_view(&self) -> AsyncView {
        self.view()
    }
}

impl View for AbiStream {
    type V = AsyncView;

    open spec fn view(&self) -> AsyncView {
        AsyncView { ty: self.ty@, symbol: self.symbol@ }
    }
}

impl DeepView for AbiStream {
    type V = AsyncView;

    open spec fn deep_view(&self) -> AsyncView {
        self.view()
    }
}

impl Clone for AbiFuture {
    fn clone(&self) -> (res: Self)
        ensures
            res@ == self@,
    {
        AbiFuture { ty: self.ty.clone(), symbol: self.symbol.clone() }
    }
}

impl Clone for AbiStream {
    fn clone(&self) -> (res: Self)
        ensures
            res@ == self@,
    {
        AbiStream { ty: self.ty.clone(), symbol: self.symbol.clone() }
    }
}

impl AsyncView {
    /// The poll function of a future: its receiver is the boxed future, its
    /// arguments are the callback pointer and one port, and it returns the
    /// payload once it is ready.
    pub open spec fn poll_future(self) -> AbiFunctionView {
        AbiFunctionView {
            doc: Seq::empty(),
            ty: FunctionTypeView::PollFuture(self.symbol, self.ty),
            name: "poll"@,
            args: seq![
                ("post_cobject"@, AbiTypeView::Isize),
                ("port"@, AbiTypeView::Num(NumType::I64)),
            ],
            ret: Some(AbiTypeView::Option(Box::new(self.ty))),
        }
    }

    /// The poll function of a stream: as for a future, with a second port
    /// on which the end of the stream is signalled.
    pub open spec fn poll_stream(self) -> AbiFunctionView {
        AbiFunctionView {
            doc: Seq::empty(),
            ty: FunctionTypeView::PollStream(self.symbol, self.ty),
            name: "poll"@,
            args: seq![
                ("post_cobject"@, AbiTypeView::Isize),
                ("port"@, AbiTypeView::Num(NumType::I64)),
                ("done"@, AbiTypeView::Num(NumType::I64)),
            ],
            ret: Some(AbiTypeView::Option(Box::new(self.ty))),
        }
    }
}

/// The symbol of the poll function of a future or stream is the symbol by
/// which the calling side names it when it lifts the future or stream.
pub proof fn poll_symbols_agree(fut: AsyncView)
    ensures
        fut.poll_future().symbol() == crate::naming::future_poll_symbol(fut.symbol),
        fut.poll_stream().symbol() == crate::naming::stream_poll_symbol(fut.symbol),
{
    reveal_strlit("poll");
    reveal_strlit("_future_");
    reveal_strlit("_stream_");
    reveal_strlit("_future_poll");
    reveal_strlit("_stream_poll");
    assert(fut.symbol + "_future_"@ + "poll"@ =~= fut.symbol + "_future_poll"@);
    assert(fut.symbol + "_stream_"@ + "poll"@ =~= fut.symbol + "_stream_poll"@);
}

impl AbiFuture {
    /// Derives the poll function of the future.
    pub fn poll(&self) -> (func: AbiFunction)
        ensures
            func@ == self@.poll_future(),
    {
        let mut args: Vec<(String, AbiType)> = Vec::new();
        args.push((String::from_str("post_cobject"), AbiType::Isize));
        args.push((String::from_str("port"), AbiType::Num(NumType::I64)));
        let func = AbiFunction {
            ty: FunctionType::PollFuture(self.symbol.clone(), self.ty.clone()),
            doc: Vec::new(),
            name: String::from_str("poll"),
            args,
            ret: Some(AbiType::Option(Box::new(self.ty.clone()))),
        };
        assert(func@.args =~= self@.poll_future().args);
        assert(func@.doc =~= self@.poll_future().doc);
        func
    }
}

impl AbiStream {
    /// Derives the poll function of the stream.
    pub fn poll(&self) -> (func: AbiFunction)
        ensures
            func@ == self@.poll_stream(),
    {
        let mut args: Vec<(String, AbiType)> = Vec::new();
        args.push((String::from_str("post_cobject"), AbiType::Isize));
        args.push((String::from_str("port"), AbiType::Num(NumType::I64)));
        args.push((String::from_str("done"), AbiType::Num(NumType::I64)));
        let func = AbiFunction {
            ty: FunctionType::PollStream(self.symbol.clone(), self.ty.clone()),
            doc: Vec::new(),
            name: String::from_str("poll"),
            args,
            ret: Some(AbiType::Option(Box::new(self.ty.clone()))),
        };
        assert(func@.args =~= self@.poll_stream().args);
        assert(func@.doc =~= self@.poll_stream().doc);
        func
    }
}

/// The generator of fresh slots: each slot gets the next binding.
pub struct VarGen {
    counter: u32,
}

impl View for VarGen {
    type V = nat;

    /// The binding that the next slot gets.
    closed spec fn view(&self) -> nat {
        self.counter as nat
    }
}

impl VarGen {
    /// Makes a generator whose first slot gets binding 0.
    pub fn new() -> (gen: Self)
        ensures
            gen@ == 0,
    {
        VarGen { counter: 0 }
    }

    /// Makes a fresh slot that holds a number.
    pub fn gen_num(&mut self, num: NumType) -> (var: Var)
        requires
            old(self)@ < u32::MAX,
        ensures
            final(self)@ == old(self)@ + 1,
            var@ == num_var(old(self)@, num),
    {
        self.gen(AbiType::Num(num))
    }

    /// Makes a fresh slot of the given type.
    pub fn gen(&mut self, ty: AbiType) -> (var: Var)
        requires
            old(self)@ < u32::MAX,
        ensures
            final(self)@ == old(self)@ + 1,
            var.binding == old(self)@,
            var.ty == ty,
    {
        let binding = self.counter;
        self.counter += 1;
        Var { binding, ty }
    }
}

/// Appends a slot to a list.
pub fn push_var(vars: &mut Vec<Var>, var: Var)
    ensures
        final(vars).deep_view() == old(vars).deep_view().push(var@),
{
    vars.push(var);
    assert(vars.deep_view() =~= old(vars).deep_view().push(var@));
}

/// Makes a fresh number slot and appends it to a list of raw slots.
pub fn raw_slot(gen: &mut VarGen, slots: &mut Vec<Var>, num: NumType) -> (var: Var)
    requires
        old(gen)@ < u32::MAX,
    ensures
        final(gen)@ == old(gen)@ + 1,
        var@ == num_var(old(gen)@, num),
        final(slots).deep_view() == old(slots).deep_view() + seq![var@],
{
    let var = gen.gen_num(num);
    slots.push(var.clone());
    assert(slots.deep_view() =~= old(slots).deep_view() + seq![var@]);
    var
}

/// A binary calling convention.
#[derive(Clone, Copy, Debug, PartialEq, Eq, Structural)]
pub enum Abi {
    Native32,
    Native64,
    Wasm32,
    Wasm64,
}

impl Abi {
    /// Whether pointers of the convention are 32 bits wide.
    pub open spec fn is_32(self) -> bool {
        self == Abi::Native32 || self == Abi::Wasm32
    }

    /// Whether the convention is one of a linear-memory virtual machine.
    pub open spec fn is_wasm(self) -> bool {
        self == Abi::Wasm32 || self == Abi::Wasm64
    }

    /// The unsigned pointer-width number type.
    pub open spec fn spec_uptr(self) -> NumType {
        if self.is_32() {
            NumType::U32
        } else {
            NumType::U64
        }
    }

    /// The signed pointer-width number type.
    pub open spec fn spec_iptr(self) -> NumType {
        if self.is_32() {
            NumType::I32
        } else {
            NumType::I64
        }
    }

    /// The number of bytes that a number occupies in a layout: its natural
    /// width, raised to four bytes on the linear-memory targets.
    pub open spec fn slot_size(self, ty: NumType) -> nat {
        if self.is_wasm() && ty.natural_size() < 4 {
            4
        } else {
            ty.natural_size()
        }
    }

    /// The native convention of the machine that runs this code.
    pub fn native() -> (abi: Abi)
        ensures
            abi == (if usize::BITS == 32 {
                Abi::Native32
            } else {
                Abi::Native64
            }),
    {
        if usize::BITS == 32 {
            Abi::Native32
        } else {
            Abi::Native64
        }
    }

    /// Returns the unsigned pointer-width number type.
    #[verifier::when_used_as_spec(spec_uptr)]
    pub fn uptr(self) -> (ty: NumType)
        ensures
            ty == self.spec_uptr(),
    {
        match self {
            Abi::Native32 | Abi::Wasm32 => NumType::U32,
            Abi::Native64 | Abi::Wasm64 => NumType::U64,
        }
    }

    /// Returns the signed pointer-width number type.
    #[verifier::when_used_as_spec(spec_iptr)]
    pub fn iptr(self) -> (ty: NumType)
        ensures
            ty == self.spec_iptr(),
    {
        match self {
            Abi::Native32 | Abi::Wasm32 => NumType::I32,
            Abi::Native64 | Abi::Wasm64 => NumType::I64,
        }
    }

    /// Makes the two raw slots of a borrowed buffer, pointer and length,
    /// and appends them to a list of raw slots.
    pub fn raw_ptr_len(self, gen: &mut VarGen, slots: &mut Vec<Var>) -> (vars: (Var, Var))
        requires
            old(gen)@ + 2 <= u32::MAX,
        ensures
            final(gen)@ == old(gen)@ + 2,
            vars.0@ == num_var(old(gen)@, self.iptr()),
            vars.1@ == num_var(old(gen)@ + 1, self.uptr()),
            final(slots).deep_view() == old(slots).deep_view() + seq![vars.0@, vars.1@],
    {
        let ptr = gen.gen_num(self.iptr());
        let len = gen.gen_num(self.uptr());
        slots.push(ptr.clone());
        slots.push(len.clone());
        assert(slots.deep_view() =~= old(slots).deep_view() + seq![ptr@, len@]);
        (ptr, len)
    }

    /// Makes the three raw slots of an owned buffer, pointer, length and
    /// capacity, and appends them to a list of raw slots.
    pub fn raw_ptr_len_cap(self, gen: &mut VarGen, slots: &mut Vec<Var>) -> (vars: (
        Var,
        Var,
        Var,
    ))
        requires
            old(gen)@ + 3 <= u32::MAX,
        ensures
            final(gen)@ == old(gen)@ + 3,
            vars.0@ == num_var(old(gen)@, self.iptr()),
            vars.1@ == num_var(old(gen)@ + 1, self.uptr()),
            vars.2@ == num_var(old(gen)@ + 2, self.uptr()),
            final(slots).deep_view() == old(slots).deep_view() + seq![vars.0@, vars.1@, vars.2@],
    {
        let ptr = gen.gen_num(self.iptr());
        let len = gen.gen_num(self.uptr());
        let cap = gen.gen_num(self.uptr());
        slots.push(ptr.clone());
        slots.push(len.clone());
        slots.push(cap.clone());
        assert(slots.deep_view() =~= old(slots).deep_view() + seq![ptr@, len@, cap@]);
        (ptr, len, cap)
    }

    /// Returns the size and alignment of a primitive type.
    pub fn layout(self, ty: NumType) -> (layout: (usize, usize))
        ensures
            layout.0 == self.slot_size(ty),
            layout.1 == self.slot_size(ty),
    {
        let size: usize = match ty {
            NumType::U8 | NumType::I8 => 1,
            NumType::U16 | NumType::I16 => 2,
            NumType::U32 | NumType::I32 | NumType::F32 => 4,
            NumType::U64 | NumType::I64 | NumType::F64 => 8,
        };
        let size: usize = match self {
            Abi::Native32 | Abi::Native64 => size,
            Abi::Wasm32 | Abi::Wasm64 => if size < 4 {
                4
            } else {
                size
            },
        };
        (size, size)
    }
}

} // verus!
