//! Derivation of the functions and objects of an interface in normal form.

use crate::abi::import::{importable, spec_import, Import, ImportView};
use crate::abi::{
    clone_strings, Abi, AbiFunction, AbiFunctionView, AbiFuture, AbiObject,
    AbiObjectView, AbiStream, AbiType, AbiTypeView, AsyncView, FunctionType, FunctionTypeView,
    NumType,
};
use crate::naming::{destructor_name, destructor_symbol};
use crate::parser::{str_eq, Function, FunctionView, Interface, InterfaceView, Type, TypeView};
use vstd::prelude::*;
use vstd::string::StringExecFns;

verus! {

/// Why an interface cannot be derived, with the name of a declaration that
/// stands in the way.
#[derive(Debug, PartialEq, Eq)]
pub enum DeriveError {
    /// Two objects have the name.
    DuplicateObject(String),
    /// The free function of the name is static.
    StaticFunction(String),
    /// The function or method of the name writes a type that stands for no
    /// portable type, or takes an argument that cannot be passed.
    UnsupportedType(String),
}

impl DeriveError {
    /// Returns the message of the error.
    pub fn message(&self) -> (text: String)
        ensures
            text@ == match self {
                DeriveError::DuplicateObject(name) => "duplicate object identifier "@ + name@,
                DeriveError::StaticFunction(name) => "static function outside of an object: "@
                    + name@,
                DeriveError::UnsupportedType(name) => "unsupported type in the declaration of "@
                    + name@,
            },
    {
        match self {
            DeriveError::DuplicateObject(name) => {
                let mut text = String::from_str("duplicate object identifier ");
                text.append(name.as_str());
                text
            },
            DeriveError::StaticFunction(name) => {
                let mut text = String::from_str("static function outside of an object: ");
                text.append(name.as_str());
                text
            },
            DeriveError::UnsupportedType(name) => {
                let mut text = String::from_str("unsupported type in the declaration of ");
                text.append(name.as_str());
                text
            },
        }
    }
}

impl InterfaceView {
    /// The portable type that a written type stands for, if it stands for
    /// one. A slice is borrowed and a vector is owned, and both hold
    /// numbers; a name is an object that the interface declares, owned or
    /// borrowed; a bare slice, a reference to anything else and an unknown
    /// name stand for nothing.
    pub open spec fn to_type(self, ty: TypeView) -> Option<AbiTypeView>
        decreases ty,
    {
        match ty {
            TypeView::U8 => Some(AbiTypeView::Num(NumType::U8)),
            TypeView::U16 => Some(AbiTypeView::Num(NumType::U16)),
            TypeView::U32 => Some(AbiTypeView::Num(NumType::U32)),
            TypeView::U64 => Some(AbiTypeView::Num(NumType::U64)),
            TypeView::Usize => Some(AbiTypeView::Usize),
            TypeView::I8 => Some(AbiTypeView::Num(NumType::I8)),
            TypeView::I16 => Some(AbiTypeView::Num(NumType::I16)),
            TypeView::I32 => Some(AbiTypeView::Num(NumType::I32)),
            TypeView::I64 => Some(AbiTypeView::Num(NumType::I64)),
            TypeView::Isize => Some(AbiTypeView::Isize),
            TypeView::F32 => Some(AbiTypeView::Num(NumType::F32)),
            TypeView::F64 => Some(AbiTypeView::Num(NumType::F64)),
            TypeView::Bool => Some(AbiTypeView::Bool),
            TypeView::Ref(inner) => match *inner {
                TypeView::String => Some(AbiTypeView::RefStr),
                TypeView::Slice(elem) => match self.to_type(*elem) {
                    Some(AbiTypeView::Num(num)) => Some(AbiTypeView::RefSlice(num)),
                    _ => None,
                },
                TypeView::Ident(name) => if self.is_object(name) {
                    Some(AbiTypeView::RefObject(name))
                } else {
                    None
                },
                _ => None,
            },
            TypeView::String => Some(AbiTypeView::String),
            TypeView::Vec(elem) => match self.to_type(*elem) {
                Some(AbiTypeView::Num(num)) => Some(AbiTypeView::Vec(num)),
                _ => None,
            },
            TypeView::Ident(name) => if self.is_object(name) {
                Some(AbiTypeView::Object(name))
            } else {
                None
            },
            TypeView::Option(inner) => match self.to_type(*inner) {
                Some(ty) => Some(AbiTypeView::Option(Box::new(ty))),
                None => None,
            },
            TypeView::Result(inner) => match self.to_type(*inner) {
                Some(ty) => Some(AbiTypeView::Result(Box::new(ty))),
                None => None,
            },
            TypeView::Future(inner) => match self.to_type(*inner) {
                Some(ty) => Some(AbiTypeView::Future(Box::new(ty))),
                None => None,
            },
            TypeView::Stream(inner) => match self.to_type(*inner) {
                Some(ty) => Some(AbiTypeView::Stream(Box::new(ty))),
                None => None,
            },
            TypeView::Slice(_) => None,
        }
    }

    /// Whether a written type is the type of an argument: it stands for a
    /// portable type that can be passed.
    pub open spec fn arg_typed(self, ty: TypeView) -> bool {
        self.to_type(ty) matches Some(ty) && ty.arg_supported()
    }

    /// Whether every type that a declaration writes stands for a portable
    /// type, and every argument can be passed.
    pub open spec fn typed(self, f: FunctionView) -> bool {
        &&& forall|i: int| 0 <= i < f.args.len() ==> self.arg_typed((#[trigger] f.args[i]).1)
        &&& f.ret matches Some(ty) ==> self.to_type(ty) is Some
    }

    /// The normal form of a declaration of the given kind.
    pub open spec fn function(self, f: FunctionView, ty: FunctionTypeView) -> AbiFunctionView {
        AbiFunctionView {
            doc: f.doc,
            ty,
            name: f.ident,
            args: Seq::new(
                f.args.len(),
                |i: int| (f.args[i].0, self.to_type(f.args[i].1).unwrap()),
            ),
            ret: match f.ret {
                Some(ty) => Some(self.to_type(ty).unwrap()),
                None => None,
            },
        }
    }

    /// The kind of a method of the named object: a static one is a
    /// constructor.
    pub open spec fn method_type(object: Seq<char>, f: FunctionView) -> FunctionTypeView {
        if f.is_static {
            FunctionTypeView::Constructor(object)
        } else {
            FunctionTypeView::Method(object)
        }
    }

    /// Whether two objects of the interface have the given name.
    pub open spec fn duplicate(self, name: Seq<char>) -> bool {
        exists|i: int, j: int|
            0 <= i < j < self.objects.len() && (#[trigger] self.objects[i]).ident == name && (
            #[trigger] self.objects[j]).ident == name
    }

    /// Whether a free function of the given name is static.
    pub open spec fn static_function(self, name: Seq<char>) -> bool {
        exists|i: int|
            0 <= i < self.functions.len() && (#[trigger] self.functions[i]).is_static
                && self.functions[i].ident == name
    }

    /// Whether no free function is static.
    pub open spec fn no_static_function(self) -> bool {
        forall|i: int| 0 <= i < self.functions.len() ==> !(#[trigger] self.functions[i]).is_static
    }

    /// Whether a function or method of the given name writes a type that
    /// stands for no portable type, or takes an argument that cannot be
    /// passed.
    pub open spec fn untyped(self, name: Seq<char>) -> bool {
        ||| exists|i: int|
            0 <= i < self.functions.len() && !self.typed(#[trigger] self.functions[i])
                && self.functions[i].ident == name
        ||| exists|i: int, j: int|
            0 <= i < self.objects.len() && 0 <= j < self.objects[i].methods.len() && !self.typed(
                #[trigger] self.objects[i].methods[j],
            ) && self.objects[i].methods[j].ident == name
    }

    /// Whether the interface can be derived: no two objects share a name,
    /// no free function is static, every written type stands for a
    /// portable type, and every argument can be passed.
    pub open spec fn derivable(self) -> bool {
        &&& self.distinct_objects()
        &&& forall|i: int|
            0 <= i < self.functions.len() ==> !(#[trigger] self.functions[i]).is_static
                && self.typed(self.functions[i])
        &&& forall|i: int, j: int|
            0 <= i < self.objects.len() && 0 <= j < self.objects[i].methods.len() ==> self.typed(
                #[trigger] self.objects[i].methods[j],
            )
    }

    /// The free functions of the interface in normal form, in the order of
    /// their declaration.
    pub open spec fn abi_functions(self) -> Seq<AbiFunctionView> {
        Seq::new(
            self.functions.len(),
            |i: int| self.function(self.functions[i], FunctionTypeView::Function),
        )
    }

    /// The methods of the `i`-th object in normal form.
    pub open spec fn abi_methods(self, i: int) -> Seq<AbiFunctionView> {
        let object = self.objects[i];
        Seq::new(
            object.methods.len(),
            |j: int|
                self.function(
                    object.methods[j],
                    Self::method_type(object.ident, object.methods[j]),
                ),
        )
    }

    /// The objects of the interface in normal form, in the order of their
    /// declaration, each with the symbol of its destructor.
    pub open spec fn abi_objects(self) -> Seq<AbiObjectView> {
        Seq::new(
            self.objects.len(),
            |i: int|
                AbiObjectView {
                    doc: self.objects[i].doc,
                    name: self.objects[i].ident,
                    methods: self.abi_methods(i),
                    destructor: destructor_symbol(self.objects[i].ident),
                },
        )
    }

    /// The methods of the first `n` objects, one object after another.
    pub open spec fn all_methods(self, n: nat) -> Seq<AbiFunctionView>
        decreases n,
    {
        if n == 0 || n > self.objects.len() {
            Seq::empty()
        } else {
            self.all_methods((n - 1) as nat) + self.abi_methods(n - 1)
        }
    }

    /// Every function of the interface: the free functions, then the
    /// methods of each object.
    pub open spec fn all_functions(self) -> Seq<AbiFunctionView> {
        self.abi_functions() + self.all_methods(self.objects.len())
    }
}

/// The payload of the future that a returned type holds, looking through
/// `Option` and `Result`.
pub open spec fn future_payload(ty: AbiTypeView) -> Option<AbiTypeView>
    decreases ty,
{
    match ty {
        AbiTypeView::Option(inner) => future_payload(*inner),
        AbiTypeView::Result(inner) => future_payload(*inner),
        AbiTypeView::Future(payload) => Some(*payload),
        _ => None,
    }
}

/// The item type of the stream that a returned type holds, looking through
/// `Option` and `Result`.
pub open spec fn stream_payload(ty: AbiTypeView) -> Option<AbiTypeView>
    decreases ty,
{
    match ty {
        AbiTypeView::Option(inner) => stream_payload(*inner),
        AbiTypeView::Result(inner) => stream_payload(*inner),
        AbiTypeView::Stream(payload) => Some(*payload),
        _ => None,
    }
}

/// The future that a function returns, if it returns one.
pub open spec fn future_of(f: AbiFunctionView) -> Option<AsyncView> {
    match f.ret {
        Some(ty) => match future_payload(ty) {
            Some(payload) => Some(AsyncView { ty: payload, symbol: f.symbol() }),
            None => None,
        },
        None => None,
    }
}

/// The stream that a function returns, if it returns one.
pub open spec fn stream_of(f: AbiFunctionView) -> Option<AsyncView> {
    match f.ret {
        Some(ty) => match stream_payload(ty) {
            Some(payload) => Some(AsyncView { ty: payload, symbol: f.symbol() }),
            None => None,
        },
        None => None,
    }
}

/// The futures that the first `n` of the given functions return, in
/// order.
pub open spec fn futures_of(fs: Seq<AbiFunctionView>, n: nat) -> Seq<AsyncView>
    decreases n,
{
    if n == 0 || n > fs.len() {
        Seq::empty()
    } else {
        match future_of(fs[n - 1]) {
            Some(fut) => futures_of(fs, (n - 1) as nat).push(fut),
            None => futures_of(fs, (n - 1) as nat),
        }
    }
}

/// The streams that the first `n` of the given functions return, in
/// order.
pub open spec fn streams_of(fs: Seq<AbiFunctionView>, n: nat) -> Seq<AsyncView>
    decreases n,
{
    if n == 0 || n > fs.len() {
        Seq::empty()
    } else {
        match stream_of(fs[n - 1]) {
            Some(stream) => streams_of(fs, (n - 1) as nat).push(stream),
            None => streams_of(fs, (n - 1) as nat),
        }
    }
}

impl InterfaceView {
    /// The futures that the functions of the interface return.
    pub open spec fn abi_futures(self) -> Seq<AsyncView> {
        futures_of(self.all_functions(), self.all_functions().len())
    }

    /// The streams that the functions of the interface return.
    pub open spec fn abi_streams(self) -> Seq<AsyncView> {
        streams_of(self.all_functions(), self.all_functions().len())
    }

    /// Every function that the calling side imports: the functions of the
    /// interface, then the poll function of each future, then that of each
    /// stream.
    pub open spec fn import_subjects(self) -> Seq<AbiFunctionView> {
        self.all_functions() + Seq::new(
            self.abi_futures().len(),
            |i: int| self.abi_futures()[i].poll_future(),
        ) + Seq::new(self.abi_streams().len(), |i: int| self.abi_streams()[i].poll_stream())
    }

    /// Whether the calling side can import every function of the
    /// interface for the given convention.
    pub open spec fn importable(self, abi: Abi) -> bool {
        forall|i: int|
            0 <= i < self.import_subjects().len() ==> importable(
                abi,
                #[trigger] self.import_subjects()[i],
            )
    }

    /// The import sides of all functions of the interface.
    pub open spec fn imports(self, abi: Abi) -> Seq<ImportView> {
        Seq::new(
            self.import_subjects().len(),
            |i: int| spec_import(abi, self.import_subjects()[i]),
        )
    }
}

impl Interface {
    /// Converts a written type to the portable type it stands for, or
    /// tells that it stands for none.
    pub fn try_to_type(&self, ty: &Type) -> (res: Option<AbiType>)
        ensures
            res.deep_view() == self@.to_type(ty@),
        decreases ty,
    {
        proof {
            reveal_with_fuel(Type::model, 3);
            reveal_with_fuel(InterfaceView::to_type, 2);
        }
        match ty {
            Type::U8 => Some(AbiType::Num(NumType::U8)),
            Type::U16 => Some(AbiType::Num(NumType::U16)),
            Type::U32 => Some(AbiType::Num(NumType::U32)),
            Type::U64 => Some(AbiType::Num(NumType::U64)),
            Type::Usize => Some(AbiType::Usize),
            Type::I8 => Some(AbiType::Num(NumType::I8)),
            Type::I16 => Some(AbiType::Num(NumType::I16)),
            Type::I32 => Some(AbiType::Num(NumType::I32)),
            Type::I64 => Some(AbiType::Num(NumType::I64)),
            Type::Isize => Some(AbiType::Isize),
            Type::F32 => Some(AbiType::Num(NumType::F32)),
            Type::F64 => Some(AbiType::Num(NumType::F64)),
            Type::Bool => Some(AbiType::Bool),
            Type::Ref(inner) => match &**inner {
                Type::String => Some(AbiType::RefStr),
                Type::Slice(elem) => match self.try_to_type(&**elem) {
                    Some(AbiType::Num(num)) => Some(AbiType::RefSlice(num)),
                    _ => None,
                },
                Type::Ident(ident) => if self.is_object(ident.as_str()) {
                    Some(AbiType::RefObject(ident.clone()))
                } else {
                    None
                },
                _ => None,
            },
            Type::String => Some(AbiType::String),
            Type::Vec(elem) => match self.try_to_type(&**elem) {
                Some(AbiType::Num(num)) => Some(AbiType::Vec(num)),
                _ => None,
            },
            Type::Ident(ident) => if self.is_object(ident.as_str()) {
                Some(AbiType::Object(ident.clone()))
            } else {
                None
            },
            Type::Option(inner) => match self.try_to_type(&**inner) {
                Some(ty) => Some(AbiType::Option(Box::new(ty))),
                None => None,
            },
            Type::Result(inner) => match self.try_to_type(&**inner) {
                Some(ty) => Some(AbiType::Result(Box::new(ty))),
                None => None,
            },
            Type::Future(inner) => match self.try_to_type(&**inner) {
                Some(ty) => Some(AbiType::Future(Box::new(ty))),
                None => None,
            },
            Type::Stream(inner) => match self.try_to_type(&**inner) {
                Some(ty) => Some(AbiType::Stream(Box::new(ty))),
                None => None,
            },
            Type::Slice(_) => None,
        }
    }

    /// Converts a written type to the portable type it stands for.
    pub fn to_type(&self, ty: &Type) -> (res: AbiType)
        requires
            self@.to_type(ty@) is Some,
        ensures
            Some(res@) == self@.to_type(ty@),
    {
        match self.try_to_type(ty) {
            Some(res) => res,
            None => {
                assert(false);
                AbiType::Bool
            },
        }
    }

    /// Puts a declaration of the given kind in normal form.
    fn abi_function(&self, f: &Function, ty: FunctionType) -> (res: AbiFunction)
        requires
            self@.typed(f@),
        ensures
            res@ == self@.function(f@, ty@),
    {
        let mut args: Vec<(String, AbiType)> = Vec::new();
        let mut i: usize = 0;
        while i < f.args.len()
            invariant
                i <= f.args.len(),
                self@.typed(f@),
                args.len() == i,
                forall|j: int|
                    0 <= j < i ==> (#[trigger] args[j]).deep_view() == (
                        f@.args[j].0,
                        self@.to_type(f@.args[j].1).unwrap(),
                    ),
            decreases f.args.len() - i,
        {
            assert(self@.to_type(f@.args[i as int].1) is Some);
            args.push((f.args[i].0.clone(), self.to_type(&f.args[i].1)));
            i += 1;
        }
        let ret = match &f.ret {
            Some(ty) => Some(self.to_type(ty)),
            None => None,
        };
        let res = AbiFunction { doc: clone_strings(&f.doc), name: f.ident.clone(), ty, args, ret };
        assert(res@.args =~= self@.function(f@, ty@).args);
        res
    }

    /// Puts the methods of the `i`-th object in normal form.
    fn abi_methods(&self, i: usize) -> (res: Vec<AbiFunction>)
        requires
            self@.derivable(),
            i < self.objects.len(),
        ensures
            res.deep_view() == self@.abi_methods(i as int),
    {
        let object = &self.objects[i];
        let mut methods: Vec<AbiFunction> = Vec::new();
        let mut j: usize = 0;
        while j < object.methods.len()
            invariant
                j <= object.methods.len(),
                self@.derivable(),
                i < self.objects.len(),
                object == &self.objects[i as int],
                methods.len() == j,
                forall|k: int|
                    0 <= k < j ==> (#[trigger] methods[k])@ == self@.abi_methods(i as int)[k],
            decreases object.methods.len() - j,
        {
            let method = &object.methods[j];
            assert(method@ == self@.objects[i as int].methods[j as int]);
            assert(self@.typed(method@));
            let obj = object.ident.clone();
            let ty = if method.is_static {
                FunctionType::Constructor(obj)
            } else {
                FunctionType::Method(obj)
            };
            methods.push(self.abi_function(method, ty));
            j += 1;
        }
        assert(methods.deep_view() =~= self@.abi_methods(i as int));
        methods
    }

    /// Derives the objects of the interface in normal form.
    pub fn objects(&self) -> (res: Vec<AbiObject>)
        requires
            self@.derivable(),
        ensures
            res.deep_view() == self@.abi_objects(),
    {
        let mut objs: Vec<AbiObject> = Vec::new();
        let mut i: usize = 0;
        while i < self.objects.len()
            invariant
                i <= self.objects.len(),
                self@.derivable(),
                objs.len() == i,
                forall|k: int| 0 <= k < i ==> (#[trigger] objs[k])@ == self@.abi_objects()[k],
            decreases self.objects.len() - i,
        {
            let object = &self.objects[i];
            let methods = self.abi_methods(i);
            let destructor = destructor_name(object.ident.as_str());
            objs.push(
                AbiObject {
                    doc: clone_strings(&object.doc),
                    name: object.ident.clone(),
                    methods,
                    destructor,
                },
            );
            i += 1;
        }
        assert(objs.deep_view() =~= self@.abi_objects());
        objs
    }

    /// Derives the free functions of the interface in normal form.
    pub fn functions(&self) -> (res: Vec<AbiFunction>)
        requires
            self@.derivable(),
        ensures
            res.deep_view() == self@.abi_functions(),
    {
        let mut funcs: Vec<AbiFunction> = Vec::new();
        let mut i: usize = 0;
        while i < self.functions.len()
            invariant
                i <= self.functions.len(),
                self@.derivable(),
                funcs.len() == i,
                forall|k: int| 0 <= k < i ==> (#[trigger] funcs[k])@ == self@.abi_functions()[k],
            decreases self.functions.len() - i,
        {
            let func = &self.functions[i];
            assert(func@ == self@.functions[i as int]);
            funcs.push(self.abi_function(func, FunctionType::Function));
            i += 1;
        }
        assert(funcs.deep_view() =~= self@.abi_functions());
        funcs
    }

    /// Derives the methods of every object, one object after another.
    pub fn all_methods(&self) -> (res: Vec<AbiFunction>)
        requires
            self@.derivable(),
        ensures
            res.deep_view() == self@.all_methods(self@.objects.len()),
    {
        let mut all: Vec<AbiFunction> = Vec::new();
        let mut i: usize = 0;
        assert(all.deep_view() =~= self@.all_methods(0));
        while i < self.objects.len()
            invariant
                i <= self.objects.len(),
                self@.derivable(),
                all.deep_view() == self@.all_methods(i as nat),
            decreases self.objects.len() - i,
        {
            let ghost before = all.deep_view();
            let mut methods = self.abi_methods(i);
            let ghost added = methods.deep_view();
            all.append(&mut methods);
            assert(all.deep_view() =~= before + added);
            assert(self@.objects.len() == self.objects.len());
            i += 1;
        }
        assert(self@.objects.len() == self.objects.len());
        all
    }

    /// Derives every function of the interface: the free functions, then
    /// the methods of each object.
    pub fn all_functions(&self) -> (res: Vec<AbiFunction>)
        requires
            self@.derivable(),
        ensures
            res.deep_view() == self@.all_functions(),
    {
        let mut functions = self.functions();
        let mut methods = self.all_methods();
        let ghost before = functions.deep_view();
        let ghost added = methods.deep_view();
        functions.append(&mut methods);
        assert(functions.deep_view() =~= before + added);
        functions
    }

    /// Derives the futures that the functions of the interface return.
    pub fn futures(&self) -> (res: Vec<AbiFuture>)
        requires
            self@.derivable(),
        ensures
            res.deep_view() == self@.abi_futures(),
    {
        let mut futures: Vec<AbiFuture> = Vec::new();
        let functions = self.all_functions();
        let ghost fs = functions.deep_view();
        let mut i: usize = 0;
        assert(futures.deep_view() =~= futures_of(fs, 0));
        while i < functions.len()
            invariant
                i <= functions.len(),
                fs == functions.deep_view(),
                futures.deep_view() == futures_of(fs, i as nat),
            decreases functions.len() - i,
        {
            let func = &functions[i];
            let ghost before = futures.deep_view();
            if let Some(ty) = &func.ret {
                if let Some(payload) = payload_of_future(ty) {
                    futures.push(AbiFuture { ty: payload, symbol: func.symbol() });
                    assert(futures.deep_view() =~= before.push(future_of(fs[i as int]).unwrap()));
                }
            }
            i += 1;
        }
        futures
    }

    /// Derives the streams that the functions of the interface return.
    pub fn streams(&self) -> (res: Vec<AbiStream>)
        requires
            self@.derivable(),
        ensures
            res.deep_view() == self@.abi_streams(),
    {
        let mut streams: Vec<AbiStream> = Vec::new();
        let functions = self.all_functions();
        let ghost fs = functions.deep_view();
        let mut i: usize = 0;
        assert(streams.deep_view() =~= streams_of(fs, 0));
        while i < functions.len()
            invariant
                i <= functions.len(),
                fs == functions.deep_view(),
                streams.deep_view() == streams_of(fs, i as nat),
            decreases functions.len() - i,
        {
            let func = &functions[i];
            let ghost before = streams.deep_view();
            if let Some(ty) = &func.ret {
                if let Some(payload) = payload_of_stream(ty) {
                    streams.push(AbiStream { ty: payload, symbol: func.symbol() });
                    assert(streams.deep_view() =~= before.push(stream_of(fs[i as int]).unwrap()));
                }
            }
            i += 1;
        }
        streams
    }

    /// Derives the import side of every function of the interface: of the
    /// free functions, of the methods of each object, and of the poll
    /// function of each future and each stream.
    pub fn imports(&self, abi: &Abi) -> (res: Vec<Import>)
        requires
            self@.derivable(),
            self@.importable(*abi),
        ensures
            res.deep_view() == self@.imports(*abi),
    {
        let mut imports: Vec<Import> = Vec::new();
        let functions = self.all_functions();
        let futures = self.futures();
        let streams = self.streams();
        let ghost subjects = self@.import_subjects();
        let mut i: usize = 0;
        while i < functions.len()
            invariant
                i <= functions.len(),
                subjects == self@.import_subjects(),
                self@.importable(*abi),
                functions.deep_view() == self@.all_functions(),
                imports.len() == i,
                forall|k: int|
                    0 <= k < i ==> (#[trigger] imports[k])@ == spec_import(*abi, subjects[k]),
            decreases functions.len() - i,
        {
            assert(subjects[i as int] == functions[i as int]@);
            assert(importable(*abi, subjects[i as int]));
            imports.push(abi.import(&functions[i]));
            i += 1;
        }
        let mut j: usize = 0;
        while j < futures.len()
            invariant
                j <= futures.len(),
                subjects == self@.import_subjects(),
                self@.importable(*abi),
                functions.deep_view() == self@.all_functions(),
                futures.deep_view() == self@.abi_futures(),
                imports.len() == functions.len() + j,
                forall|k: int|
                    0 <= k < imports.len() ==> (#[trigger] imports[k])@ == spec_import(
                        *abi,
                        subjects[k],
                    ),
            decreases futures.len() - j,
        {
            let poll = futures[j].poll();
            assert(subjects[functions.len() + j] == poll@);
            assert(importable(*abi, subjects[functions.len() + j]));
            imports.push(abi.import(&poll));
            j += 1;
        }
        let mut k: usize = 0;
        while k < streams.len()
            invariant
                k <= streams.len(),
                subjects == self@.import_subjects(),
                self@.importable(*abi),
                functions.deep_view() == self@.all_functions(),
                futures.deep_view() == self@.abi_futures(),
                streams.deep_view() == self@.abi_streams(),
                imports.len() == functions.len() + futures.len() + k,
                forall|m: int|
                    0 <= m < imports.len() ==> (#[trigger] imports[m])@ == spec_import(
                        *abi,
                        subjects[m],
                    ),
            decreases streams.len() - k,
        {
            let poll = streams[k].poll();
            assert(subjects[functions.len() + futures.len() + k] == poll@);
            assert(importable(*abi, subjects[functions.len() + futures.len() + k]));
            imports.push(abi.import(&poll));
            k += 1;
        }
        assert(imports.deep_view() =~= self@.imports(*abi));
        imports
    }

    /// Tells whether every type that a declaration writes stands for a
    /// portable type, and every argument can be passed.
    pub fn typed(&self, f: &Function) -> (ok: bool)
        ensures
            ok == self@.typed(f@),
    {
        let mut i: usize = 0;
        while i < f.args.len()
            invariant
                i <= f.args.len(),
                forall|j: int| 0 <= j < i ==> self@.arg_typed((#[trigger] f@.args[j]).1),
            decreases f.args.len() - i,
        {
            let passes = match self.try_to_type(&f.args[i].1) {
                Some(ty) => ty.arg_supported(),
                None => false,
            };
            if !passes {
                assert(!self@.arg_typed(f@.args[i as int].1));
                return false;
            }
            i += 1;
        }
        match &f.ret {
            Some(ty) => self.try_to_type(ty).is_some(),
            None => true,
        }
    }

    /// Finds two objects of one name.
    fn find_duplicate(&self) -> (res: Option<String>)
        ensures
            match res {
                Some(name) => self@.duplicate(name@),
                None => self@.distinct_objects(),
            },
    {
        let mut j: usize = 0;
        while j < self.objects.len()
            invariant
                j <= self.objects.len(),
                forall|a: int, b: int|
                    0 <= a < b < j ==> (#[trigger] self@.objects[a]).ident != (
                    #[trigger] self@.objects[b]).ident,
            decreases self.objects.len() - j,
        {
            if self.is_object_before(j) {
                return Some(self.objects[j].ident.clone());
            }
            j += 1;
        }
        None
    }

    /// Tells whether an object before the `j`-th has its name.
    fn is_object_before(&self, j: usize) -> (found: bool)
        requires
            j < self.objects.len(),
        ensures
            found == exists|i: int|
                0 <= i < j && (#[trigger] self@.objects[i]).ident == self@.objects[j as int].ident,
            found ==> self@.duplicate(self@.objects[j as int].ident),
    {
        let mut i: usize = 0;
        while i < j
            invariant
                i <= j < self.objects.len(),
                forall|a: int|
                    0 <= a < i ==> (#[trigger] self@.objects[a]).ident
                        != self@.objects[j as int].ident,
            decreases j - i,
        {
            if str_eq(self.objects[i].ident.as_str(), self.objects[j].ident.as_str()) {
                assert(self@.objects[i as int].ident == self@.objects[j as int].ident);
                assert(self@.objects[j as int].ident == self@.objects[j as int].ident);
                return true;
            }
            i += 1;
        }
        false
    }

    /// Finds a static free function.
    fn find_static(&self) -> (res: Option<String>)
        ensures
            match res {
                Some(name) => self@.static_function(name@),
                None => self@.no_static_function(),
            },
    {
        let mut i: usize = 0;
        while i < self.functions.len()
            invariant
                i <= self.functions.len(),
                forall|k: int| 0 <= k < i ==> !(#[trigger] self@.functions[k]).is_static,
            decreases self.functions.len() - i,
        {
            let func = &self.functions[i];
            assert(func@ == self@.functions[i as int]);
            if func.is_static {
                return Some(func.ident.clone());
            }
            i += 1;
        }
        None
    }

    /// Finds a function or method that writes a type that stands for no
    /// portable type, or takes an argument that cannot be passed.
    fn find_untyped(&self) -> (res: Option<String>)
        ensures
            match res {
                Some(name) => self@.untyped(name@),
                None => {
                    &&& forall|i: int|
                        0 <= i < self@.functions.len() ==> self@.typed(
                            #[trigger] self@.functions[i],
                        )
                    &&& forall|i: int, j: int|
                        0 <= i < self@.objects.len() && 0 <= j < self@.objects[i].methods.len()
                            ==> self@.typed(#[trigger] self@.objects[i].methods[j])
                },
            },
    {
        let mut i: usize = 0;
        while i < self.functions.len()
            invariant
                i <= self.functions.len(),
                forall|k: int| 0 <= k < i ==> self@.typed(#[trigger] self@.functions[k]),
            decreases self.functions.len() - i,
        {
            let func = &self.functions[i];
            assert(func@ == self@.functions[i as int]);
            if !self.typed(func) {
                return Some(func.ident.clone());
            }
            i += 1;
        }
        let mut i: usize = 0;
        while i < self.objects.len()
            invariant
                i <= self.objects.len(),
                forall|k: int|
                    0 <= k < self.functions.len() ==> self@.typed(#[trigger] self@.functions[k]),
                forall|k: int, j: int|
                    0 <= k < i && 0 <= j < self@.objects[k].methods.len() ==> self@.typed(
                        #[trigger] self@.objects[k].methods[j],
                    ),
            decreases self.objects.len() - i,
        {
            let object = &self.objects[i];
            let mut j: usize = 0;
            while j < object.methods.len()
                invariant
                    j <= object.methods.len(),
                    i < self.objects.len(),
                    object == &self.objects[i as int],
                    forall|m: int|
                        0 <= m < j ==> self@.typed(#[trigger] self@.objects[i as int].methods[m]),
                decreases object.methods.len() - j,
            {
                let method = &object.methods[j];
                assert(method@ == self@.objects[i as int].methods[j as int]);
                if !self.typed(method) {
                    return Some(method.ident.clone());
                }
                j += 1;
            }
            i += 1;
        }
        None
    }

    /// Tells whether the interface can be derived, and names a declaration
    /// that stands in the way where it cannot: an object that is declared
    /// twice; else a free function that is static; else a function or
    /// method whose types are not supported.
    pub fn validate(&self) -> (res: Result<(), DeriveError>)
        ensures
            res is Ok <==> self@.derivable(),
            match res {
                Ok(_) => true,
                Err(DeriveError::DuplicateObject(name)) => self@.duplicate(name@),
                Err(DeriveError::StaticFunction(name)) => self@.distinct_objects()
                    && self@.static_function(name@),
                Err(DeriveError::UnsupportedType(name)) => self@.distinct_objects()
                    && self@.no_static_function() && self@.untyped(name@),
            },
    {
        if let Some(name) = self.find_duplicate() {
            return Err(DeriveError::DuplicateObject(name));
        }
        if let Some(name) = self.find_static() {
            return Err(DeriveError::StaticFunction(name));
        }
        if let Some(name) = self.find_untyped() {
            return Err(DeriveError::UnsupportedType(name));
        }
        Ok(())
    }

    /// Tells whether the interface can be derived.
    pub fn check(&self) -> (ok: bool)
        ensures
            ok == self@.derivable(),
    {
        self.validate().is_ok()
    }

    /// Tells whether the calling side can import every function of the
    /// interface for the given convention.
    pub fn can_import(&self, abi: Abi) -> (ok: bool)
        requires
            self@.derivable(),
        ensures
            ok == self@.importable(abi),
    {
        let functions = self.all_functions();
        let futures = self.futures();
        let streams = self.streams();
        let ghost subjects = self@.import_subjects();
        let mut i: usize = 0;
        while i < functions.len()
            invariant
                i <= functions.len(),
                subjects == self@.import_subjects(),
                functions.deep_view() == self@.all_functions(),
                forall|k: int| 0 <= k < i ==> importable(abi, #[trigger] subjects[k]),
            decreases functions.len() - i,
        {
            assert(subjects[i as int] == functions[i as int]@);
            if !abi.can_import(&functions[i]) {
                return false;
            }
            i += 1;
        }
        let mut j: usize = 0;
        while j < futures.len()
            invariant
                j <= futures.len(),
                subjects == self@.import_subjects(),
                functions.deep_view() == self@.all_functions(),
                futures.deep_view() == self@.abi_futures(),
                forall|k: int|
                    0 <= k < functions.len() + j ==> importable(abi, #[trigger] subjects[k]),
            decreases futures.len() - j,
        {
            let poll = futures[j].poll();
            assert(subjects[functions.len() + j] == poll@);
            if !abi.can_import(&poll) {
                return false;
            }
            j += 1;
        }
        let mut k: usize = 0;
        while k < streams.len()
            invariant
                k <= streams.len(),
                subjects == self@.import_subjects(),
                functions.deep_view() == self@.all_functions(),
                futures.deep_view() == self@.abi_futures(),
                streams.deep_view() == self@.abi_streams(),
                forall|m: int|
                    0 <= m < functions.len() + futures.len() + k ==> importable(
                        abi,
                        #[trigger] subjects[m],
                    ),
            decreases streams.len() - k,
        {
            let poll = streams[k].poll();
            assert(subjects[functions.len() + futures.len() + k] == poll@);
            if !abi.can_import(&poll) {
                return false;
            }
            k += 1;
        }
        true
    }
}

/// Finds the payload of the future that a returned type holds.
pub fn payload_of_future(ty: &AbiType) -> (res: Option<AbiType>)
    ensures
        res.deep_view() == future_payload(ty@),
    decreases ty,
{
    match ty {
        AbiType::Option(inner) => payload_of_future(&**inner),
        AbiType::Result(inner) => payload_of_future(&**inner),
        AbiType::Future(payload) => Some((&**payload).clone()),
        _ => None,
    }
}

/// Finds the item type of the stream that a returned type holds.
pub fn payload_of_stream(ty: &AbiType) -> (res: Option<AbiType>)
    ensures
        res.deep_view() == stream_payload(ty@),
    decreases ty,
{
    match ty {
        AbiType::Option(inner) => payload_of_stream(&**inner),
        AbiType::Result(inner) => payload_of_stream(&**inner),
        AbiType::Stream(payload) => Some((&**payload).clone()),
        _ => None,
    }
}

} // verus!
