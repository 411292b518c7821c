//! Reading an interface description from its text.

use crate::parser::grammar::{
    at, char_is_whitespace, doc_at, doc_end, doc_text, ident_end, is_ident_char, is_ident_start,
    is_newline, is_space, lemma_docs_acc, lemma_scan_bounds, line_end, object_at, parse_arg_list,
    parse_args, parse_docs, parse_function, parse_ident, parse_items, parse_methods, parse_object,
    parse_ret, parse_type, primitive, spaces_end, starts_with, trim_end, trim_start, trimmed,
    wrapper,
};
use crate::parser::{Function, Interface, InterfaceView, Object, Type, TypeView};
use vstd::prelude::*;
use vstd::string::StrSliceExecFns;

verus! {

/// A text with its characters laid out for reading by position.
pub struct Source<'a> {
    text: &'a str,
    chars: Vec<char>,
}

impl<'a> View for Source<'a> {
    type V = Seq<char>;

    closed spec fn view(&self) -> Seq<char> {
        self.chars@
    }
}

impl<'a> Source<'a> {
    /// Whether the characters are those of the text.
    pub closed spec fn wf(&self) -> bool {
        self.chars@ == self.text@
    }

    /// Lays out the characters of a text.
    pub fn new(text: &'a str) -> (source: Self)
        ensures
            source.wf(),
            source@ == text@,
    {
        broadcast use vstd::string::group_string_axioms;

        let mut chars: Vec<char> = Vec::new();
        for c in it: text.chars()
            invariant
                it.seq() == text@,
                chars@.len() == it.index(),
                forall|j: int| 0 <= j < chars@.len() ==> chars@[j] == it.seq()[j],
        {
            chars.push(c);
        }
        assert(chars@ =~= text@);
        Source { text, chars }
    }

    /// The number of characters.
    pub fn len(&self) -> (len: usize)
        ensures
            len == self@.len(),
    {
        self.chars.len()
    }

    /// Finds the first position at or after `i` that holds no separator.
    pub fn spaces_end(&self, i: usize) -> (end: usize)
        requires
            i <= self@.len(),
        ensures
            end == spaces_end(self@, i as nat),
            i <= end <= self@.len(),
    {
        let mut j = i;
        while j < self.chars.len() && is_space_char(self.chars[j])
            invariant
                i <= j <= self.chars.len(),
                spaces_end(self@, i as nat) == spaces_end(self@, j as nat),
            decreases self.chars.len() - j,
        {
            j += 1;
        }
        j
    }

    /// Finds the first position at or after `i` that does not continue a
    /// name.
    pub fn ident_end(&self, i: usize) -> (end: usize)
        requires
            i <= self@.len(),
        ensures
            end == ident_end(self@, i as nat),
            i <= end <= self@.len(),
    {
        let mut j = i;
        while j < self.chars.len() && is_ident_char_exec(self.chars[j])
            invariant
                i <= j <= self.chars.len(),
                ident_end(self@, i as nat) == ident_end(self@, j as nat),
            decreases self.chars.len() - j,
        {
            j += 1;
        }
        j
    }

    /// Finds the first position at or after `i` that ends the line.
    pub fn line_end(&self, i: usize) -> (end: usize)
        requires
            i <= self@.len(),
        ensures
            end == line_end(self@, i as nat),
            i <= end <= self@.len(),
    {
        let mut j = i;
        while j < self.chars.len() && !is_newline_char(self.chars[j])
            invariant
                i <= j <= self.chars.len(),
                line_end(self@, i as nat) == line_end(self@, j as nat),
            decreases self.chars.len() - j,
        {
            j += 1;
        }
        j
    }

    /// Tells whether the character at position `i` is `c`.
    pub fn at(&self, i: usize, c: char) -> (found: bool)
        ensures
            found == at(self@, i as nat, c),
            found ==> i < self@.len() <= usize::MAX,
    {
        i < self.chars.len() && self.chars[i] == c
    }

    /// Tells whether the text goes on with the given word at position `i`.
    pub fn starts_with(&self, i: usize, word: &str) -> (found: bool)
        requires
            i <= self@.len(),
        ensures
            found == starts_with(self@, i as nat, word@),
            found ==> i + word@.len() <= self@.len() <= usize::MAX,
    {
        let n = word.unicode_len();
        if n > self.chars.len() - i {
            return false;
        }
        let mut j: usize = 0;
        while j < n
            invariant
                j <= n,
                n == word@.len(),
                i + n <= self.chars.len(),
                forall|k: int| 0 <= k < j ==> self@[i + k] == word@[k],
            decreases n - j,
        {
            if self.chars[i + j] != word.get_char(j) {
                assert(self@.subrange(i as int, (i + n) as int)[j as int] != word@[j as int]);
                return false;
            }
            j += 1;
        }
        assert(self@.subrange(i as int, (i + n) as int) =~= word@);
        true
    }

    /// Tells whether the text from `from` to `to` is the given word.
    pub fn is(&self, from: usize, to: usize, word: &str) -> (same: bool)
        requires
            from <= to <= self@.len(),
        ensures
            same == (self@.subrange(from as int, to as int) == word@),
    {
        let n = word.unicode_len();
        if to - from != n {
            assert(self@.subrange(from as int, to as int).len() != word@.len());
            return false;
        }
        self.starts_with(from, word)
    }

    /// Copies the text from `from` to `to`.
    pub fn slice(&self, from: usize, to: usize) -> (text: String)
        requires
            self.wf(),
            from <= to <= self@.len(),
        ensures
            text@ == self@.subrange(from as int, to as int),
    {
        self.text.substring_char(from, to).to_owned()
    }

    /// Copies the text from `from` to `to` without the white space at its
    /// ends.
    pub fn trimmed(&self, from: usize, to: usize) -> (text: String)
        requires
            self.wf(),
            from <= to <= self@.len(),
        ensures
            text@ == trimmed(self@, from as nat, to as nat),
    {
        let ghost line = self@.subrange(0, to as int);
        let mut start = from;
        while start < to && char_is_whitespace(self.chars[start])
            invariant
                from <= start <= to <= self.chars.len(),
                line == self@.subrange(0, to as int),
                trim_start(line, from as nat) == trim_start(line, start as nat),
            decreases to - start,
        {
            assert(line[start as int] == self@[start as int]);
            start += 1;
        }
        assert(start < to ==> line[start as int] == self@[start as int]);
        let mut end = to;
        while start < end && char_is_whitespace(self.chars[end - 1])
            invariant
                start <= end <= to <= self.chars.len(),
                trim_end(self@, start as nat, to as nat) == trim_end(
                    self@,
                    start as nat,
                    end as nat,
                ),
            decreases end,
        {
            end -= 1;
        }
        self.slice(start, end)
    }

    /// Reads a name at position `i`.
    pub fn ident(&self, i: usize) -> (res: Option<(String, usize)>)
        requires
            self.wf(),
            i <= self@.len(),
        ensures
            match res {
                Some((name, end)) => parse_ident(self@, i as nat) == Some((name@, end as nat))
                    && i < end <= self@.len(),
                None => parse_ident(self@, i as nat) is None,
            },
    {
        if i < self.chars.len() && is_ident_start_exec(self.chars[i]) {
            let end = self.ident_end(i);
            assert(end > i) by {
                lemma_scan_bounds(self@, (i + 1) as nat);
            }
            Some((self.slice(i, end), end))
        } else {
            None
        }
    }

    /// Finds the primitive type that the text from `from` to `to` names.
    fn primitive(&self, from: usize, to: usize) -> (res: Option<Type>)
        requires
            from <= to <= self@.len(),
        ensures
            res.deep_view() == primitive(self@.subrange(from as int, to as int)),
    {
        if self.is(from, to, "u8") {
            Some(Type::U8)
        } else if self.is(from, to, "u16") {
            Some(Type::U16)
        } else if self.is(from, to, "u32") {
            Some(Type::U32)
        } else if self.is(from, to, "u64") {
            Some(Type::U64)
        } else if self.is(from, to, "usize") {
            Some(Type::Usize)
        } else if self.is(from, to, "i8") {
            Some(Type::I8)
        } else if self.is(from, to, "i16") {
            Some(Type::I16)
        } else if self.is(from, to, "i32") {
            Some(Type::I32)
        } else if self.is(from, to, "i64") {
            Some(Type::I64)
        } else if self.is(from, to, "isize") {
            Some(Type::Isize)
        } else if self.is(from, to, "bool") {
            Some(Type::Bool)
        } else if self.is(from, to, "f32") {
            Some(Type::F32)
        } else if self.is(from, to, "f64") {
            Some(Type::F64)
        } else if self.is(from, to, "string") {
            Some(Type::String)
        } else {
            None
        }
    }

    /// Applies the wrapper that the text from `from` to `to` names.
    fn wrapper(&self, from: usize, to: usize, inner: Type) -> (res: Option<Type>)
        requires
            from <= to <= self@.len(),
        ensures
            res.deep_view() == wrapper(self@.subrange(from as int, to as int), inner@),
    {
        if self.is(from, to, "Vec") {
            Some(Type::Vec(Box::new(inner)))
        } else if self.is(from, to, "Option") {
            Some(Type::Option(Box::new(inner)))
        } else if self.is(from, to, "Result") {
            Some(Type::Result(Box::new(inner)))
        } else if self.is(from, to, "Future") {
            Some(Type::Future(Box::new(inner)))
        } else if self.is(from, to, "Stream") {
            Some(Type::Stream(Box::new(inner)))
        } else {
            None
        }
    }

    /// Tells whether the text from `from` to `to` names a wrapper.
    fn is_wrapper(&self, from: usize, to: usize) -> (res: bool)
        requires
            from <= to <= self@.len(),
        ensures
            res == wrapper(self@.subrange(from as int, to as int), TypeView::Bool) is Some,
    {
        self.is(from, to, "Vec") || self.is(from, to, "Option") || self.is(from, to, "Result")
            || self.is(from, to, "Future") || self.is(from, to, "Stream")
    }

    /// Reads a type at position `i`.
    pub fn parse_type(&self, i: usize) -> (res: Option<(Type, usize)>)
        requires
            self.wf(),
            i <= self@.len(),
        ensures
            match res {
                Some((ty, end)) => parse_type(self@, i as nat) == Some((ty@, end as nat)) && i
                    < end <= self@.len(),
                None => parse_type(self@, i as nat) is None,
            },
        decreases self@.len() - i,
    {
        if i >= self.chars.len() {
            return None;
        }
        let c = self.chars[i];
        if c == '&' {
            match self.parse_type(self.spaces_end(i + 1)) {
                Some((inner, end)) => Some((Type::Ref(Box::new(inner)), end)),
                None => None,
            }
        } else if c == '[' {
            match self.parse_type(self.spaces_end(i + 1)) {
                Some((inner, end)) => {
                    let close = self.spaces_end(end);
                    if self.at(close, ']') {
                        Some((Type::Slice(Box::new(inner)), close + 1))
                    } else {
                        None
                    }
                },
                None => None,
            }
        } else if is_ident_start_exec(c) {
            let end = self.ident_end(i);
            assert(end > i) by {
                lemma_scan_bounds(self@, (i + 1) as nat);
            }
            let open = self.spaces_end(end);
            match self.primitive(i, end) {
                Some(ty) => Some((ty, end)),
                None => {
                    if self.is_wrapper(i, end) && self.at(open, '<') {
                        match self.parse_type(self.spaces_end(open + 1)) {
                            Some((inner, close)) => {
                                let close = self.spaces_end(close);
                                if self.at(close, '>') {
                                    match self.wrapper(i, end, inner) {
                                        Some(ty) => Some((ty, close + 1)),
                                        None => None,
                                    }
                                } else {
                                    None
                                }
                            },
                            None => None,
                        }
                    } else {
                        Some((Type::Ident(self.slice(i, end)), end))
                    }
                },
            }
        } else {
            None
        }
    }

    /// Tells whether a documentation line with the given third character
    /// starts at position `i`.
    pub fn doc_at(&self, i: usize, marker: char) -> (found: bool)
        requires
            i <= self@.len(),
        ensures
            found == doc_at(self@, i as nat, marker),
            found ==> i + 3 <= self@.len() <= usize::MAX,
    {
        self.at(i, '/') && self.at(i + 1, '/') && self.at(i + 2, marker)
    }

    /// Reads the documentation line at position `i`.
    pub fn doc(&self, i: usize) -> (res: (String, usize))
        requires
            self.wf(),
            doc_at(self@, i as nat, '/') || doc_at(self@, i as nat, '!'),
        ensures
            res.0@ == doc_text(self@, i as nat),
            res.1 == doc_end(self@, i as nat),
            i < res.1 <= self@.len(),
    {
        let len = self.chars.len();
        assert(i + 3 <= len);
        let end = self.line_end(i + 3);
        (self.trimmed(i + 3, end), self.spaces_end(end))
    }

    /// Reads the documentation lines from position `i` on.
    pub fn docs(&self, i: usize) -> (res: (Vec<String>, usize))
        requires
            self.wf(),
            i <= self@.len(),
        ensures
            (res.0.deep_view(), res.1 as nat) == parse_docs(self@, i as nat, Seq::empty()),
            i <= res.1 <= self@.len(),
    {
        let mut docs: Vec<String> = Vec::new();
        let mut j = i;
        assert(docs.deep_view() =~= Seq::empty());
        while self.doc_at(j, '/')
            invariant
                self.wf(),
                i <= j <= self@.len(),
                parse_docs(self@, i as nat, Seq::empty()) == parse_docs(
                    self@,
                    j as nat,
                    docs.deep_view(),
                ),
            decreases self@.len() - j,
        {
            let ghost before = docs.deep_view();
            let (text, next) = self.doc(j);
            docs.push(text);
            assert(docs.deep_view() =~= before.push(doc_text(self@, j as nat)));
            j = next;
        }
        (docs, j)
    }

    /// Reads the arguments from position `i` on, up to the closing
    /// parenthesis.
    fn arg_list(&self, i: usize) -> (res: Option<(Vec<(String, Type)>, usize)>)
        requires
            self.wf(),
            i <= self@.len(),
        ensures
            match res {
                Some((args, end)) => parse_arg_list(self@, i as nat, Seq::empty()) == Some(
                    (args.deep_view(), end as nat),
                ) && i < end <= self@.len(),
                None => parse_arg_list(self@, i as nat, Seq::empty()) is None,
            },
    {
        let mut args: Vec<(String, Type)> = Vec::new();
        let mut j = i;
        assert(args.deep_view() =~= Seq::empty());
        loop
            invariant
                self.wf(),
                i <= j <= self@.len(),
                args.len() > 0 ==> i < j,
                parse_arg_list(self@, i as nat, Seq::empty()) == parse_arg_list(
                    self@,
                    j as nat,
                    args.deep_view(),
                ),
            decreases self@.len() - j,
        {
            let (name, end) = match self.ident(j) {
                Some(found) => found,
                None => {
                    return None;
                },
            };
            let colon = self.spaces_end(end);
            if !self.at(colon, ':') {
                return None;
            }
            let (ty, end) = match self.parse_type(self.spaces_end(colon + 1)) {
                Some(found) => found,
                None => {
                    return None;
                },
            };
            let next = self.spaces_end(end);
            let ghost before = args.deep_view();
            args.push((name, ty));
            assert(args.deep_view() =~= before.push((name@, ty@)));
            if self.at(next, ',') {
                j = self.spaces_end(next + 1);
            } else if self.at(next, ')') {
                return Some((args, next + 1));
            } else {
                return None;
            }
        }
    }

    /// Reads the arguments of a function at position `i`.
    pub fn args(&self, i: usize) -> (res: Option<(Vec<(String, Type)>, usize)>)
        requires
            self.wf(),
            i <= self@.len(),
        ensures
            match res {
                Some((args, end)) => parse_args(self@, i as nat) == Some(
                    (args.deep_view(), end as nat),
                ) && i < end <= self@.len(),
                None => parse_args(self@, i as nat) is None,
            },
    {
        if !self.at(i, '(') {
            return None;
        }
        let first = self.spaces_end(i + 1);
        if self.at(first, ')') {
            let args: Vec<(String, Type)> = Vec::new();
            assert(args.deep_view() =~= Seq::empty());
            Some((args, first + 1))
        } else {
            self.arg_list(first)
        }
    }

    /// Reads the return type of a function at position `i`.
    pub fn ret(&self, i: usize) -> (res: Option<(Option<Type>, usize)>)
        requires
            self.wf(),
            i <= self@.len(),
        ensures
            match res {
                Some((ret, end)) => parse_ret(self@, i as nat) == Some(
                    (ret.deep_view(), end as nat),
                ) && i <= end <= self@.len(),
                None => parse_ret(self@, i as nat) is None,
            },
    {
        if self.starts_with(i, "->") {
            proof {
                reveal_strlit("->");
            }
            match self.parse_type(self.spaces_end(i + 2)) {
                Some((ty, end)) => Some((Some(ty), end)),
                None => None,
            }
        } else {
            Some((None, i))
        }
    }

    /// Reads a function at position `i`.
    pub fn function(&self, i: usize) -> (res: Option<(Function, usize)>)
        requires
            self.wf(),
            i <= self@.len(),
        ensures
            match res {
                Some((function, end)) => parse_function(self@, i as nat) == Some(
                    (function@, end as nat),
                ) && i < end <= self@.len(),
                None => parse_function(self@, i as nat) is None,
            },
    {
        proof {
            reveal_strlit("static");
            reveal_strlit("fn");
        }
        let (doc, start) = self.docs(i);
        let is_static = self.starts_with(start, "static");
        let keyword = if is_static {
            self.spaces_end(start + 6)
        } else {
            start
        };
        if !self.starts_with(keyword, "fn") {
            return None;
        }
        let (ident, end) = match self.ident(self.spaces_end(keyword + 2)) {
            Some(found) => found,
            None => {
                return None;
            },
        };
        let (args, end) = match self.args(self.spaces_end(end)) {
            Some(found) => found,
            None => {
                return None;
            },
        };
        let (ret, end) = match self.ret(self.spaces_end(end)) {
            Some(found) => found,
            None => {
                return None;
            },
        };
        let semicolon = self.spaces_end(end);
        if self.at(semicolon, ';') {
            Some((Function { doc, is_static, ident, args, ret }, semicolon + 1))
        } else {
            None
        }
    }

    /// Reads the methods from position `i` on, up to the closing brace.
    fn methods(&self, i: usize) -> (res: Option<(Vec<Function>, usize)>)
        requires
            self.wf(),
            i <= self@.len(),
        ensures
            match res {
                Some((methods, end)) => parse_methods(self@, i as nat, Seq::empty()) == Some(
                    (methods.deep_view(), end as nat),
                ) && i < end <= self@.len(),
                None => parse_methods(self@, i as nat, Seq::empty()) is None,
            },
    {
        let mut methods: Vec<Function> = Vec::new();
        let mut j = i;
        assert(methods.deep_view() =~= Seq::empty());
        while !self.at(j, '}')
            invariant
                self.wf(),
                i <= j <= self@.len(),
                parse_methods(self@, i as nat, Seq::empty()) == parse_methods(
                    self@,
                    j as nat,
                    methods.deep_view(),
                ),
            decreases self@.len() - j,
        {
            let (method, end) = match self.function(j) {
                Some(found) => found,
                None => {
                    return None;
                },
            };
            let ghost before = methods.deep_view();
            methods.push(method);
            assert(methods.deep_view() =~= before.push(method@));
            j = self.spaces_end(end);
        }
        Some((methods, j + 1))
    }

    /// Reads an object at position `i`.
    pub fn object(&self, i: usize) -> (res: Option<(Object, usize)>)
        requires
            self.wf(),
            i <= self@.len(),
        ensures
            match res {
                Some((object, end)) => parse_object(self@, i as nat) == Some(
                    (object@, end as nat),
                ) && i < end <= self@.len(),
                None => parse_object(self@, i as nat) is None,
            },
    {
        proof {
            reveal_strlit("object");
        }
        let (doc, start) = self.docs(i);
        if !self.starts_with(start, "object") {
            return None;
        }
        let (ident, end) = match self.ident(self.spaces_end(start + 6)) {
            Some(found) => found,
            None => {
                return None;
            },
        };
        let open = self.spaces_end(end);
        if !self.at(open, '{') {
            return None;
        }
        match self.methods(self.spaces_end(open + 1)) {
            Some((methods, end)) => Some((Object { doc, ident, methods }, end)),
            None => None,
        }
    }

    /// Tells whether the item at position `i` is an object.
    pub fn object_at(&self, i: usize) -> (found: bool)
        requires
            self.wf(),
            i <= self@.len(),
        ensures
            found == object_at(self@, i as nat),
    {
        let mut j = i;
        while self.doc_at(j, '/')
            invariant
                self.wf(),
                i <= j <= self@.len(),
                parse_docs(self@, i as nat, Seq::empty()).1 == parse_docs(
                    self@,
                    j as nat,
                    Seq::empty(),
                ).1,
            decreases self@.len() - j,
        {
            proof {
                lemma_docs_acc(self@, doc_end(self@, j as nat), seq![doc_text(self@, j as nat)]);
                lemma_scan_bounds(self@, (j + 3) as nat);
                lemma_scan_bounds(self@, line_end(self@, (j + 3) as nat));
            }
            j = self.spaces_end(self.line_end(j + 3));
        }
        self.starts_with(j, "object")
    }

    /// Reads the items of a description from position `i` on.
    pub fn items(&self, i: usize) -> (res: Option<Interface>)
        requires
            self.wf(),
            i <= self@.len(),
        ensures
            res.deep_view() == parse_items(
                self@,
                i as nat,
                InterfaceView { doc: Seq::empty(), functions: Seq::empty(), objects: Seq::empty() },
            ),
    {
        let mut doc: Vec<String> = Vec::new();
        let mut functions: Vec<Function> = Vec::new();
        let mut objects: Vec<Object> = Vec::new();
        let mut j = i;
        let ghost start = InterfaceView {
            doc: Seq::empty(),
            functions: Seq::empty(),
            objects: Seq::empty(),
        };
        assert(doc.deep_view() =~= Seq::empty());
        assert(functions.deep_view() =~= Seq::empty());
        assert(objects.deep_view() =~= Seq::empty());
        while j < self.chars.len()
            invariant
                self.wf(),
                i <= j <= self@.len(),
                start == (InterfaceView {
                    doc: Seq::empty(),
                    functions: Seq::empty(),
                    objects: Seq::empty(),
                }),
                parse_items(self@, i as nat, start) == parse_items(
                    self@,
                    j as nat,
                    InterfaceView {
                        doc: doc.deep_view(),
                        functions: functions.deep_view(),
                        objects: objects.deep_view(),
                    },
                ),
            decreases self@.len() - j,
        {
            if self.doc_at(j, '!') {
                let ghost before = doc.deep_view();
                let (text, next) = self.doc(j);
                doc.push(text);
                assert(doc.deep_view() =~= before.push(doc_text(self@, j as nat)));
                j = next;
            } else if self.object_at(j) {
                let (object, end) = match self.object(j) {
                    Some(found) => found,
                    None => {
                        return None;
                    },
                };
                let ghost before = objects.deep_view();
                objects.push(object);
                assert(objects.deep_view() =~= before.push(object@));
                j = self.spaces_end(end);
            } else {
                let (function, end) = match self.function(j) {
                    Some(found) => found,
                    None => {
                        return None;
                    },
                };
                let ghost before = functions.deep_view();
                functions.push(function);
                assert(functions.deep_view() =~= before.push(function@));
                j = self.spaces_end(end);
            }
        }
        Some(Interface { doc, functions, objects })
    }
}

/// Tells whether a character separates the words of a description.
pub fn is_space_char(c: char) -> (res: bool)
    ensures
        res == is_space(c),
{
    c == ' ' || c == '\t' || c == '\n' || c == '\r'
}

/// Tells whether a character ends a line.
pub fn is_newline_char(c: char) -> (res: bool)
    ensures
        res == is_newline(c),
{
    c == '\n' || c == '\r'
}

/// Tells whether a character can start a name.
pub fn is_ident_start_exec(c: char) -> (res: bool)
    ensures
        res == is_ident_start(c),
{
    (c >= 'a' && c <= 'z') || (c >= 'A' && c <= 'Z') || c == '_'
}

/// Tells whether a character can continue a name.
pub fn is_ident_char_exec(c: char) -> (res: bool)
    ensures
        res == is_ident_char(c),
{
    is_ident_start_exec(c) || (c >= '0' && c <= '9')
}

} // verus!
