//! The interface description: its syntax tree and its text form.

use crate::abi::clone_strings;
use vstd::prelude::*;
use vstd::string::StringExecFns;

pub mod grammar;
pub mod reader;

use grammar::parse_interface;
use reader::Source;

verus! {

/// A type as the interface description writes it.
#[derive(Debug, PartialEq, Eq)]
pub enum Type {
    U8,
    U16,
    U32,
    U64,
    Usize,
    I8,
    I16,
    I32,
    I64,
    Isize,
    Bool,
    F32,
    F64,
    String,
    Ref(Box<Type>),
    Ident(String),
    Slice(Box<Type>),
    Vec(Box<Type>),
    Option(Box<Type>),
    Result(Box<Type>),
    Future(Box<Type>),
    Stream(Box<Type>),
}

/// The value of a [`Type`].
pub enum TypeView {
    U8,
    U16,
    U32,
    U64,
    Usize,
    I8,
    I16,
    I32,
    I64,
    Isize,
    Bool,
    F32,
    F64,
    String,
    Ref(Box<TypeView>),
    Ident(Seq<char>),
    Slice(Box<TypeView>),
    Vec(Box<TypeView>),
    Option(Box<TypeView>),
    Result(Box<TypeView>),
    Future(Box<TypeView>),
    Stream(Box<TypeView>),
}

impl Type {
    /// The value of the type, computed by recursion on its structure.
    pub open spec fn model(&self) -> TypeView
        decreases self,
    {
        match self {
            Type::U8 => TypeView::U8,
            Type::U16 => TypeView::U16,
            Type::U32 => TypeView::U32,
            Type::U64 => TypeView::U64,
            Type::Usize => TypeView::Usize,
            Type::I8 => TypeView::I8,
            Type::I16 => TypeView::I16,
            Type::I32 => TypeView::I32,
            Type::I64 => TypeView::I64,
            Type::Isize => TypeView::Isize,
            Type::Bool => TypeView::Bool,
            Type::F32 => TypeView::F32,
            Type::F64 => TypeView::F64,
            Type::String => TypeView::String,
            Type::Ref(ty) => TypeView::Ref(Box::new((**ty).model())),
            Type::Ident(name) => TypeView::Ident(name@),
            Type::Slice(ty) => TypeView::Slice(Box::new((**ty).model())),
            Type::Vec(ty) => TypeView::Vec(Box::new((**ty).model())),
            Type::Option(ty) => TypeView::Option(Box::new((**ty).model())),
            Type::Result(ty) => TypeView::Result(Box::new((**ty).model())),
            Type::Future(ty) => TypeView::Future(Box::new((**ty).model())),
            Type::Stream(ty) => TypeView::Stream(Box::new((**ty).model())),
        }
    }
}

impl View for Type {
    type V = TypeView;

    open spec fn view(&self) -> TypeView {
        self.model()
    }
}

impl DeepView for Type {
    type V = TypeView;

    open spec fn deep_view(&self) -> TypeView {
        self.view()
    }
}

impl Clone for Type {
    fn clone(&self) -> (res: Self)
        ensures
            res@ == self@,
        decreases self,
    {
        match self {
            Type::U8 => Type::U8,
            Type::U16 => Type::U16,
            Type::U32 => Type::U32,
            Type::U64 => Type::U64,
            Type::Usize => Type::Usize,
            Type::I8 => Type::I8,
            Type::I16 => Type::I16,
            Type::I32 => Type::I32,
            Type::I64 => Type::I64,
            Type::Isize => Type::Isize,
            Type::Bool => Type::Bool,
            Type::F32 => Type::F32,
            Type::F64 => Type::F64,
            Type::String => Type::String,
            Type::Ref(ty) => Type::Ref(Box::new((&**ty).clone())),
            Type::Ident(name) => Type::Ident(name.clone()),
            Type::Slice(ty) => Type::Slice(Box::new((&**ty).clone())),
            Type::Vec(ty) => Type::Vec(Box::new((&**ty).clone())),
            Type::Option(ty) => Type::Option(Box::new((&**ty).clone())),
            Type::Result(ty) => Type::Result(Box::new((&**ty).clone())),
            Type::Future(ty) => Type::Future(Box::new((&**ty).clone())),
            Type::Stream(ty) => Type::Stream(Box::new((&**ty).clone())),
        }
    }
}

/// A declared function or method.
#[derive(Debug, PartialEq, Eq)]
pub struct Function {
    pub doc: Vec<String>,
    pub is_static: bool,
    pub ident: String,
    pub args: Vec<(String, Type)>,
    pub ret: Option<Type>,
}

/// The value of a [`Function`].
pub struct FunctionView {
    pub doc: Seq<Seq<char>>,
    pub is_static: bool,
    pub ident: Seq<char>,
    pub args: Seq<(Seq<char>, TypeView)>,
    pub ret: Option<TypeView>,
}

impl View for Function {
    type V = FunctionView;

    open spec fn view(&self) -> FunctionView {
        FunctionView {
            doc: self.doc.deep_view(),
            is_static: self.is_static,
            ident: self.ident@,
            args: self.args.deep_view(),
            ret: self.ret.deep_view(),
        }
    }
}

impl DeepView for Function {
    type V = FunctionView;

    open spec fn deep_view(&self) -> FunctionView {
        self.view()
    }
}

impl Clone for Function {
    fn clone(&self) -> (res: Self)
        ensures
            res@ == self@,
    {
        let mut args: Vec<(String, Type)> = Vec::new();
        let mut i: usize = 0;
        while i < self.args.len()
            invariant
                i <= self.args.len(),
                args.len() == i,
                forall|j: int| 0 <= j < i ==> args[j].deep_view() == self.args[j].deep_view(),
            decreases self.args.len() - i,
        {
            args.push((self.args[i].0.clone(), self.args[i].1.clone()));
            i += 1;
        }
        assert(args.deep_view() =~= self.args.deep_view());
        Function {
            doc: clone_strings(&self.doc),
            is_static: self.is_static,
            ident: self.ident.clone(),
            args,
            ret: match &self.ret {
                Some(ty) => Some(ty.clone()),
                None => None,
            },
        }
    }
}

/// Copies a list of declarations.
pub fn clone_declarations(items: &Vec<Function>) -> (res: Vec<Function>)
    ensures
        res.deep_view() == items.deep_view(),
{
    let mut out: Vec<Function> = Vec::new();
    let mut i: usize = 0;
    while i < items.len()
        invariant
            i <= items.len(),
            out.len() == i,
            forall|j: int| 0 <= j < i ==> out[j]@ == items[j]@,
        decreases items.len() - i,
    {
        out.push(items[i].clone());
        i += 1;
    }
    out
}

/// A declared object type with its methods.
#[derive(Debug, PartialEq, Eq)]
pub struct Object {
    pub doc: Vec<String>,
    pub ident: String,
    pub methods: Vec<Function>,
}

/// The value of an [`Object`].
pub struct ObjectView {
    pub doc: Seq<Seq<char>>,
    pub ident: Seq<char>,
    pub methods: Seq<FunctionView>,
}

impl View for Object {
    type V = ObjectView;

    open spec fn view(&self) -> ObjectView {
        ObjectView {
            doc: self.doc.deep_view(),
            ident: self.ident@,
            methods: self.methods.deep_view(),
        }
    }
}

impl DeepView for Object {
    type V = ObjectView;

    open spec fn deep_view(&self) -> ObjectView {
        self.view()
    }
}

impl Clone for Object {
    fn clone(&self) -> (res: Self)
        ensures
            res@ == self@,
    {
        Object {
            doc: clone_strings(&self.doc),
            ident: self.ident.clone(),
            methods: clone_declarations(&self.methods),
        }
    }
}

/// Copies a list of objects.
pub fn clone_objects(items: &Vec<Object>) -> (res: Vec<Object>)
    ensures
        res.deep_view() == items.deep_view(),
{
    let mut out: Vec<Object> = Vec::new();
    let mut i: usize = 0;
    while i < items.len()
        invariant
            i <= items.len(),
            out.len() == i,
            forall|j: int| 0 <= j < i ==> out[j]@ == items[j]@,
        decreases items.len() - i,
    {
        out.push(items[i].clone());
        i += 1;
    }
    out
}

/// An interface: its documentation, its free functions and its objects.
#[derive(Debug, PartialEq, Eq)]
pub struct Interface {
    pub doc: Vec<String>,
    pub functions: Vec<Function>,
    pub objects: Vec<Object>,
}

/// The value of an [`Interface`].
pub struct InterfaceView {
    pub doc: Seq<Seq<char>>,
    pub functions: Seq<FunctionView>,
    pub objects: Seq<ObjectView>,
}

impl View for Interface {
    type V = InterfaceView;

    open spec fn view(&self) -> InterfaceView {
        InterfaceView {
            doc: self.doc.deep_view(),
            functions: self.functions.deep_view(),
            objects: self.objects.deep_view(),
        }
    }
}

impl DeepView for Interface {
    type V = InterfaceView;

    open spec fn deep_view(&self) -> InterfaceView {
        self.view()
    }
}

impl Clone for Interface {
    fn clone(&self) -> (res: Self)
        ensures
            res@ == self@,
    {
        Interface {
            doc: clone_strings(&self.doc),
            functions: clone_declarations(&self.functions),
            objects: clone_objects(&self.objects),
        }
    }
}

impl InterfaceView {
    /// Whether the interface declares an object type of the given name.
    pub open spec fn is_object(self, name: Seq<char>) -> bool {
        exists|i: int| 0 <= i < self.objects.len() && (#[trigger] self.objects[i]).ident == name
    }

    /// Whether no two declared object types share a name.
    pub open spec fn distinct_objects(self) -> bool {
        forall|i: int, j: int|
            0 <= i < j < self.objects.len() ==> (#[trigger] self.objects[i]).ident != (
            #[trigger] self.objects[j]).ident
    }
}

/// Why a text is no interface description.
#[derive(Clone, Copy, Debug, PartialEq, Eq, Structural)]
pub enum ParseError {
    /// The text does not follow the grammar.
    Syntax,
    /// The text declares two objects of one name.
    DuplicateObject,
}

impl ParseError {
    /// The message of the error.
    pub open spec fn spec_message(self) -> Seq<char> {
        match self {
            ParseError::Syntax => "syntax error"@,
            ParseError::DuplicateObject => "duplicate object identifier"@,
        }
    }

    /// Returns the message of the error.
    pub fn message(&self) -> (text: String)
        ensures
            text@ == self.spec_message(),
    {
        match self {
            ParseError::Syntax => String::from_str("syntax error"),
            ParseError::DuplicateObject => String::from_str("duplicate object identifier"),
        }
    }
}

impl Interface {
    /// Reads an interface from its description. The text has to follow
    /// the grammar, and no two objects may share a name.
    pub fn parse(input: &str) -> (res: Result<Interface, ParseError>)
        ensures
            match res {
                Ok(iface) => parse_interface(input@) == Some(iface@) && iface@.distinct_objects(),
                Err(ParseError::Syntax) => parse_interface(input@) is None,
                Err(ParseError::DuplicateObject) => parse_interface(input@) matches Some(iface)
                    && !iface.distinct_objects(),
            },
    {
        let source = Source::new(input);
        match source.items(source.spaces_end(0)) {
            Some(iface) => if iface.distinct_objects() {
                Ok(iface)
            } else {
                Err(ParseError::DuplicateObject)
            },
            None => Err(ParseError::Syntax),
        }
    }

    /// Tells whether no two declared object types share a name.
    pub fn distinct_objects(&self) -> (distinct: bool)
        ensures
            distinct == self@.distinct_objects(),
    {
        let mut j: usize = 0;
        while j < self.objects.len()
            invariant
                j <= self.objects.len(),
                forall|a: int, b: int|
                    0 <= a < b < j ==> (#[trigger] self@.objects[a]).ident != (
                    #[trigger] self@.objects[b]).ident,
            decreases self.objects.len() - j,
        {
            let mut i: usize = 0;
            while i < j
                invariant
                    i <= j < self.objects.len(),
                    forall|a: int|
                        0 <= a < i ==> (#[trigger] self@.objects[a]).ident
                            != self@.objects[j as int].ident,
                decreases j - i,
            {
                if str_eq(self.objects[i].ident.as_str(), self.objects[j].ident.as_str()) {
                    assert(self@.objects[i as int].ident == self@.objects[j as int].ident);
                    return false;
                }
                i += 1;
            }
            j += 1;
        }
        true
    }

    /// Tells whether the interface declares an object type of the given
    /// name.
    pub fn is_object(&self, name: &str) -> (found: bool)
        ensures
            found == self@.is_object(name@),
    {
        let mut i: usize = 0;
        while i < self.objects.len()
            invariant
                i <= self.objects.len(),
                forall|j: int| 0 <= j < i ==> (#[trigger] self@.objects[j]).ident != name@,
            decreases self.objects.len() - i,
        {
            if str_eq(self.objects[i].ident.as_str(), name) {
                assert(self@.objects[i as int].ident == name@);
                return true;
            }
            i += 1;
        }
        false
    }
}

/// Compares two texts.
pub fn str_eq(a: &str, b: &str) -> (eq: bool)
    ensures
        eq == (a@ == b@),
{
    let a = a.to_owned();
    let b = b.to_owned();
    a == b
}

} // verus!
