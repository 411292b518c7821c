//! The text form of an interface description.
//!
//! A description is a list of module documentation lines (`//!`), objects
//! and functions, in any order, separated by white space. An item may be
//! preceded by documentation lines (`///`). A function is written
//! `fn name(arg: type, ..) -> type;`, where the return type is optional
//! and `static` may precede `fn`; an object is written
//! `object Name { .. }` around its methods. A type is a primitive name, a
//! name, `&type`, `[type]`, or one of `Vec`, `Option`, `Result`, `Future`
//! and `Stream` applied to a type in angle brackets.

use crate::parser::{FunctionView, InterfaceView, ObjectView, TypeView};
use vstd::prelude::*;

verus! {

/// Whether a character separates the words of a description.
pub open spec fn is_space(c: char) -> bool {
    c == ' ' || c == '\t' || c == '\n' || c == '\r'
}

/// Whether a character ends a line.
pub open spec fn is_newline(c: char) -> bool {
    c == '\n' || c == '\r'
}

/// Whether a character can start a name.
pub open spec fn is_ident_start(c: char) -> bool {
    ('a' <= c && c <= 'z') || ('A' <= c && c <= 'Z') || c == '_'
}

/// Whether a character can continue a name.
pub open spec fn is_ident_char(c: char) -> bool {
    is_ident_start(c) || ('0' <= c && c <= '9')
}

/// The first position at or after `i` that holds no separator.
pub open spec fn spaces_end(s: Seq<char>, i: nat) -> nat
    decreases s.len() - i,
{
    if i < s.len() && is_space(s[i as int]) {
        spaces_end(s, i + 1)
    } else {
        i
    }
}

/// The first position at or after `i` that does not continue a name.
pub open spec fn ident_end(s: Seq<char>, i: nat) -> nat
    decreases s.len() - i,
{
    if i < s.len() && is_ident_char(s[i as int]) {
        ident_end(s, i + 1)
    } else {
        i
    }
}

/// The first position at or after `i` that ends the line.
pub open spec fn line_end(s: Seq<char>, i: nat) -> nat
    decreases s.len() - i,
{
    if i < s.len() && !is_newline(s[i as int]) {
        line_end(s, i + 1)
    } else {
        i
    }
}

/// Whether the text goes on with the given word at position `i`.
pub open spec fn starts_with(s: Seq<char>, i: nat, word: Seq<char>) -> bool {
    i + word.len() <= s.len() && s.subrange(i as int, (i + word.len()) as int) == word
}

/// Whether the character at position `i` is `c`.
pub open spec fn at(s: Seq<char>, i: nat, c: char) -> bool {
    i < s.len() && s[i as int] == c
}

/// Whether a character is white space in the sense of Unicode: what
/// `char::is_whitespace` returns for it.
pub uninterp spec fn is_whitespace(c: char) -> bool;

/// Calls `char::is_whitespace` of the standard library, which tells
/// whether a character has the Unicode property `White_Space`. The
/// contract gives that answer the name [`is_whitespace`] and claims
/// nothing else of it.
#[verifier::external_body]
pub(crate) fn char_is_whitespace(c: char) -> (white: bool)
    ensures
        white == is_whitespace(c),
{
    c.is_whitespace()
}

/// The first position at or after `i` that holds no white space.
pub open spec fn trim_start(t: Seq<char>, i: nat) -> nat
    decreases t.len() - i,
{
    if i < t.len() && is_whitespace(t[i as int]) {
        trim_start(t, i + 1)
    } else {
        i
    }
}

/// The least position from `from` up to `j` after which all is white
/// space up to `j`.
pub open spec fn trim_end(t: Seq<char>, from: nat, j: nat) -> nat
    decreases j,
{
    if from < j && j <= t.len() && is_whitespace(t[j - 1]) {
        trim_end(t, from, (j - 1) as nat)
    } else {
        j
    }
}

/// The text between positions `from` and `to` without the white space at
/// its ends.
pub open spec fn trimmed(s: Seq<char>, from: nat, to: nat) -> Seq<char> {
    let start = trim_start(s.subrange(0, to as int), from);
    s.subrange(start as int, trim_end(s, start, to) as int)
}

/// A name at position `i`: a letter or an underscore, then letters, digits
/// and underscores as far as they go.
pub open spec fn parse_ident(s: Seq<char>, i: nat) -> Option<(Seq<char>, nat)> {
    if i < s.len() && is_ident_start(s[i as int]) {
        Some((s.subrange(i as int, ident_end(s, i) as int), ident_end(s, i)))
    } else {
        None
    }
}

/// The primitive type of the given name, if it names one.
pub open spec fn primitive(word: Seq<char>) -> Option<TypeView> {
    if word == "u8"@ {
        Some(TypeView::U8)
    } else if word == "u16"@ {
        Some(TypeView::U16)
    } else if word == "u32"@ {
        Some(TypeView::U32)
    } else if word == "u64"@ {
        Some(TypeView::U64)
    } else if word == "usize"@ {
        Some(TypeView::Usize)
    } else if word == "i8"@ {
        Some(TypeView::I8)
    } else if word == "i16"@ {
        Some(TypeView::I16)
    } else if word == "i32"@ {
        Some(TypeView::I32)
    } else if word == "i64"@ {
        Some(TypeView::I64)
    } else if word == "isize"@ {
        Some(TypeView::Isize)
    } else if word == "bool"@ {
        Some(TypeView::Bool)
    } else if word == "f32"@ {
        Some(TypeView::F32)
    } else if word == "f64"@ {
        Some(TypeView::F64)
    } else if word == "string"@ {
        Some(TypeView::String)
    } else {
        None
    }
}

/// The type that the given wrapper name makes of a type, if it names a
/// wrapper.
pub open spec fn wrapper(word: Seq<char>, inner: TypeView) -> Option<TypeView> {
    if word == "Vec"@ {
        Some(TypeView::Vec(Box::new(inner)))
    } else if word == "Option"@ {
        Some(TypeView::Option(Box::new(inner)))
    } else if word == "Result"@ {
        Some(TypeView::Result(Box::new(inner)))
    } else if word == "Future"@ {
        Some(TypeView::Future(Box::new(inner)))
    } else if word == "Stream"@ {
        Some(TypeView::Stream(Box::new(inner)))
    } else {
        None
    }
}

/// How far a scan goes.
pub proof fn lemma_scan_bounds(s: Seq<char>, i: nat)
    ensures
        i <= spaces_end(s, i),
        i <= ident_end(s, i),
        i <= line_end(s, i),
        i <= s.len() ==> spaces_end(s, i) <= s.len(),
        i <= s.len() ==> ident_end(s, i) <= s.len(),
        i <= s.len() ==> line_end(s, i) <= s.len(),
    decreases s.len() - i,
{
    if i < s.len() {
        lemma_scan_bounds(s, i + 1);
    }
}

/// A type at position `i`, with the position after it.
pub open spec fn parse_type(s: Seq<char>, i: nat) -> Option<(TypeView, nat)>
    decreases s.len() - i,
{
    if i >= s.len() {
        None
    } else if s[i as int] == '&' {
        proof {
            lemma_scan_bounds(s, i + 1);
        }
        match parse_type(s, spaces_end(s, i + 1)) {
            Some((inner, end)) => Some((TypeView::Ref(Box::new(inner)), end)),
            None => None,
        }
    } else if s[i as int] == '[' {
        proof {
            lemma_scan_bounds(s, i + 1);
        }
        match parse_type(s, spaces_end(s, i + 1)) {
            Some((inner, end)) => if at(s, spaces_end(s, end), ']') {
                Some((TypeView::Slice(Box::new(inner)), spaces_end(s, end) + 1))
            } else {
                None
            },
            None => None,
        }
    } else if is_ident_start(s[i as int]) {
        let end = ident_end(s, i);
        let word = s.subrange(i as int, end as int);
        let open = spaces_end(s, end);
        if primitive(word) is Some {
            Some((primitive(word).unwrap(), end))
        } else if wrapper(word, TypeView::Bool) is Some && at(s, open, '<') {
            proof {
                lemma_scan_bounds(s, i);
                lemma_scan_bounds(s, end);
                lemma_scan_bounds(s, open + 1);
            }
            match parse_type(s, spaces_end(s, open + 1)) {
                Some((inner, close)) => if at(s, spaces_end(s, close), '>') {
                    Some((wrapper(word, inner).unwrap(), spaces_end(s, close) + 1))
                } else {
                    None
                },
                None => None,
            }
        } else {
            Some((TypeView::Ident(word), end))
        }
    } else {
        None
    }
}

/// Whether a documentation line with the given third character starts at
/// position `i`: `///` before an item, `//!` for the module.
pub open spec fn doc_at(s: Seq<char>, i: nat, marker: char) -> bool {
    at(s, i, '/') && at(s, i + 1, '/') && at(s, i + 2, marker)
}

/// The text of the documentation line at position `i`: the rest of the
/// line behind the three characters of the marker, without the white
/// space at its ends.
pub open spec fn doc_text(s: Seq<char>, i: nat) -> Seq<char> {
    trimmed(s, i + 3, line_end(s, i + 3))
}

/// The position of the next word after the documentation line at
/// position `i`.
pub open spec fn doc_end(s: Seq<char>, i: nat) -> nat {
    spaces_end(s, line_end(s, i + 3))
}

/// The documentation lines from position `i` on, added to `acc`, with
/// the position of the next word.
pub open spec fn parse_docs(s: Seq<char>, i: nat, acc: Seq<Seq<char>>) -> (Seq<Seq<char>>, nat)
    decreases s.len() - i,
{
    if doc_at(s, i, '/') {
        proof {
            lemma_scan_bounds(s, i + 3);
            lemma_scan_bounds(s, line_end(s, i + 3));
        }
        parse_docs(s, doc_end(s, i), acc.push(doc_text(s, i)))
    } else {
        (acc, i)
    }
}

/// The arguments from position `i` on, added to `acc`, up to the closing
/// parenthesis, with the position after it. Each argument is written
/// `name: type`, and a comma stands between two arguments.
pub open spec fn parse_arg_list(
    s: Seq<char>,
    i: nat,
    acc: Seq<(Seq<char>, TypeView)>,
) -> Option<(Seq<(Seq<char>, TypeView)>, nat)>
    decreases s.len() - i,
{
    match parse_ident(s, i) {
        Some((name, end)) => {
            let colon = spaces_end(s, end);
            if at(s, colon, ':') {
                match parse_type(s, spaces_end(s, colon + 1)) {
                    Some((ty, end)) => {
                        let next = spaces_end(s, end);
                        if at(s, next, ',') {
                            proof {
                                lemma_scan_bounds(s, i);
                                lemma_scan_bounds(s, ident_end(s, i));
                                lemma_scan_bounds(s, colon + 1);
                                lemma_type_bounds(s, spaces_end(s, colon + 1));
                                lemma_scan_bounds(s, end);
                                lemma_scan_bounds(s, next + 1);
                            }
                            parse_arg_list(s, spaces_end(s, next + 1), acc.push((name, ty)))
                        } else if at(s, next, ')') {
                            Some((acc.push((name, ty)), next + 1))
                        } else {
                            None
                        }
                    },
                    None => None,
                }
            } else {
                None
            }
        },
        None => None,
    }
}

/// The arguments of a function at position `i`: an opening parenthesis,
/// the arguments if there are any, and a closing parenthesis.
pub open spec fn parse_args(s: Seq<char>, i: nat) -> Option<(Seq<(Seq<char>, TypeView)>, nat)> {
    if at(s, i, '(') {
        let first = spaces_end(s, i + 1);
        if at(s, first, ')') {
            Some((Seq::empty(), first + 1))
        } else {
            parse_arg_list(s, first, Seq::empty())
        }
    } else {
        None
    }
}

/// The return type of a function at position `i`: an arrow and a type, or
/// nothing.
pub open spec fn parse_ret(s: Seq<char>, i: nat) -> Option<(Option<TypeView>, nat)> {
    if starts_with(s, i, "->"@) {
        match parse_type(s, spaces_end(s, i + 2)) {
            Some((ty, end)) => Some((Some(ty), end)),
            None => None,
        }
    } else {
        Some((None, i))
    }
}

/// A function at position `i`, with the position after it: its
/// documentation lines, `static` if it is static, `fn`, its name, its
/// arguments, its return type if it has one, and a semicolon.
pub open spec fn parse_function(s: Seq<char>, i: nat) -> Option<(FunctionView, nat)> {
    let (doc, start) = parse_docs(s, i, Seq::empty());
    let is_static = starts_with(s, start, "static"@);
    let keyword = if is_static {
        spaces_end(s, start + 6)
    } else {
        start
    };
    if starts_with(s, keyword, "fn"@) {
        match parse_ident(s, spaces_end(s, keyword + 2)) {
            Some((ident, end)) => match parse_args(s, spaces_end(s, end)) {
                Some((args, end)) => match parse_ret(s, spaces_end(s, end)) {
                    Some((ret, end)) => if at(s, spaces_end(s, end), ';') {
                        Some(
                            (
                                FunctionView { doc, is_static, ident, args, ret },
                                spaces_end(s, end) + 1,
                            ),
                        )
                    } else {
                        None
                    },
                    None => None,
                },
                None => None,
            },
            None => None,
        }
    } else {
        None
    }
}

/// The methods from position `i` on, added to `acc`, up to the closing
/// brace, with the position after it.
pub open spec fn parse_methods(s: Seq<char>, i: nat, acc: Seq<FunctionView>) -> Option<
    (Seq<FunctionView>, nat),
>
    decreases s.len() - i,
{
    if at(s, i, '}') {
        Some((acc, i + 1))
    } else {
        match parse_function(s, i) {
            Some((method, end)) => {
                proof {
                    lemma_function_bounds(s, i);
                    lemma_scan_bounds(s, end);
                }
                parse_methods(s, spaces_end(s, end), acc.push(method))
            },
            None => None,
        }
    }
}

/// An object at position `i`, with the position after it: its
/// documentation lines, `object`, its name, and its methods in braces.
pub open spec fn parse_object(s: Seq<char>, i: nat) -> Option<(ObjectView, nat)> {
    let (doc, start) = parse_docs(s, i, Seq::empty());
    if starts_with(s, start, "object"@) {
        match parse_ident(s, spaces_end(s, start + 6)) {
            Some((ident, end)) => if at(s, spaces_end(s, end), '{') {
                match parse_methods(s, spaces_end(s, spaces_end(s, end) + 1), Seq::empty()) {
                    Some((methods, end)) => Some((ObjectView { doc, ident, methods }, end)),
                    None => None,
                }
            } else {
                None
            },
            None => None,
        }
    } else {
        None
    }
}

/// Whether the item at position `i` is an object: whether `object` follows
/// its documentation lines.
pub open spec fn object_at(s: Seq<char>, i: nat) -> bool {
    starts_with(s, parse_docs(s, i, Seq::empty()).1, "object"@)
}

/// The items from position `i` on, added to `acc`, up to the end of the
/// text.
pub open spec fn parse_items(s: Seq<char>, i: nat, acc: InterfaceView) -> Option<InterfaceView>
    decreases s.len() - i,
{
    if i >= s.len() {
        Some(acc)
    } else if doc_at(s, i, '!') {
        proof {
            lemma_scan_bounds(s, i + 3);
            lemma_scan_bounds(s, line_end(s, i + 3));
        }
        parse_items(
            s,
            doc_end(s, i),
            InterfaceView {
                doc: acc.doc.push(doc_text(s, i)),
                functions: acc.functions,
                objects: acc.objects,
            },
        )
    } else if object_at(s, i) {
        match parse_object(s, i) {
            Some((object, end)) => {
                proof {
                    lemma_object_bounds(s, i);
                    lemma_scan_bounds(s, end);
                }
                parse_items(
                    s,
                    spaces_end(s, end),
                    InterfaceView {
                        doc: acc.doc,
                        functions: acc.functions,
                        objects: acc.objects.push(object),
                    },
                )
            },
            None => None,
        }
    } else {
        match parse_function(s, i) {
            Some((function, end)) => {
                proof {
                    lemma_function_bounds(s, i);
                    lemma_scan_bounds(s, end);
                }
                parse_items(
                    s,
                    spaces_end(s, end),
                    InterfaceView {
                        doc: acc.doc,
                        functions: acc.functions.push(function),
                        objects: acc.objects,
                    },
                )
            },
            None => None,
        }
    }
}

/// The interface that a text describes, if it describes one.
pub open spec fn parse_interface(s: Seq<char>) -> Option<InterfaceView> {
    parse_items(
        s,
        spaces_end(s, 0),
        InterfaceView { doc: Seq::empty(), functions: Seq::empty(), objects: Seq::empty() },
    )
}

/// A type takes at least one character and ends within the text.
pub proof fn lemma_type_bounds(s: Seq<char>, i: nat)
    ensures
        parse_type(s, i) matches Some((_, end)) ==> i < end <= s.len(),
    decreases s.len() - i,
{
    if i < s.len() {
        lemma_scan_bounds(s, i);
        lemma_scan_bounds(s, i + 1);
        if s[i as int] == '&' {
            lemma_type_bounds(s, spaces_end(s, i + 1));
        } else if s[i as int] == '[' {
            lemma_type_bounds(s, spaces_end(s, i + 1));
            if let Some((_, end)) = parse_type(s, spaces_end(s, i + 1)) {
                lemma_scan_bounds(s, end);
            }
        } else if is_ident_start(s[i as int]) {
            let end = ident_end(s, i);
            let open = spaces_end(s, end);
            lemma_scan_bounds(s, end);
            lemma_scan_bounds(s, open + 1);
            if open < s.len() {
                lemma_type_bounds(s, spaces_end(s, open + 1));
                if let Some((_, close)) = parse_type(s, spaces_end(s, open + 1)) {
                    lemma_scan_bounds(s, close);
                }
            }
        }
    }
}

/// Documentation lines never lead backwards, and end within the text.
pub proof fn lemma_docs_bounds(s: Seq<char>, i: nat, acc: Seq<Seq<char>>)
    ensures
        i <= parse_docs(s, i, acc).1,
        i <= s.len() ==> parse_docs(s, i, acc).1 <= s.len(),
    decreases s.len() - i,
{
    if doc_at(s, i, '/') {
        lemma_scan_bounds(s, i + 3);
        lemma_scan_bounds(s, line_end(s, i + 3));
        lemma_docs_bounds(s, doc_end(s, i), acc.push(doc_text(s, i)));
    }
}

/// Where the documentation lines end does not depend on the lines
/// collected before.
pub proof fn lemma_docs_acc(s: Seq<char>, i: nat, acc: Seq<Seq<char>>)
    ensures
        parse_docs(s, i, acc).1 == parse_docs(s, i, Seq::empty()).1,
    decreases s.len() - i,
{
    if doc_at(s, i, '/') {
        lemma_scan_bounds(s, i + 3);
        lemma_scan_bounds(s, line_end(s, i + 3));
        lemma_docs_acc(s, doc_end(s, i), acc.push(doc_text(s, i)));
        lemma_docs_acc(s, doc_end(s, i), Seq::<Seq<char>>::empty().push(doc_text(s, i)));
    }
}

/// A list of arguments ends within the text.
pub proof fn lemma_arg_list_bounds(s: Seq<char>, i: nat, acc: Seq<(Seq<char>, TypeView)>)
    ensures
        parse_arg_list(s, i, acc) matches Some((_, end)) ==> i < end <= s.len(),
    decreases s.len() - i,
{
    if let Some((name, end)) = parse_ident(s, i) {
        let colon = spaces_end(s, end);
        lemma_scan_bounds(s, i);
        lemma_scan_bounds(s, end);
        lemma_scan_bounds(s, colon + 1);
        if at(s, colon, ':') {
            lemma_type_bounds(s, spaces_end(s, colon + 1));
            if let Some((ty, end)) = parse_type(s, spaces_end(s, colon + 1)) {
                let next = spaces_end(s, end);
                lemma_scan_bounds(s, end);
                lemma_scan_bounds(s, next + 1);
                if at(s, next, ',') {
                    lemma_arg_list_bounds(s, spaces_end(s, next + 1), acc.push((name, ty)));
                }
            }
        }
    }
}

/// A function takes at least one character and ends within the text.
pub proof fn lemma_function_bounds(s: Seq<char>, i: nat)
    ensures
        parse_function(s, i) matches Some((_, end)) ==> i < end <= s.len(),
{
    let start = parse_docs(s, i, Seq::empty()).1;
    lemma_docs_bounds(s, i, Seq::empty());
    if parse_function(s, i) is Some {
        let keyword = if starts_with(s, start, "static"@) {
            spaces_end(s, start + 6)
        } else {
            start
        };
        lemma_scan_bounds(s, start + 6);
        lemma_scan_bounds(s, keyword + 2);
        let name = spaces_end(s, keyword + 2);
        lemma_scan_bounds(s, name);
        let open = spaces_end(s, ident_end(s, name));
        lemma_scan_bounds(s, ident_end(s, name));
        lemma_scan_bounds(s, open + 1);
        lemma_arg_list_bounds(s, spaces_end(s, open + 1), Seq::empty());
        let end = parse_args(s, open).unwrap().1;
        let arrow = spaces_end(s, end);
        lemma_scan_bounds(s, end);
        lemma_scan_bounds(s, arrow + 2);
        lemma_type_bounds(s, spaces_end(s, arrow + 2));
        let end = parse_ret(s, arrow).unwrap().1;
        lemma_scan_bounds(s, end);
    }
}

/// A list of methods ends within the text.
pub proof fn lemma_methods_bounds(s: Seq<char>, i: nat, acc: Seq<FunctionView>)
    ensures
        parse_methods(s, i, acc) matches Some((_, end)) ==> i < end <= s.len(),
    decreases s.len() - i,
{
    if !at(s, i, '}') {
        if let Some((method, end)) = parse_function(s, i) {
            lemma_function_bounds(s, i);
            lemma_scan_bounds(s, end);
            lemma_methods_bounds(s, spaces_end(s, end), acc.push(method));
        }
    }
}

/// An object takes at least one character and ends within the text.
pub proof fn lemma_object_bounds(s: Seq<char>, i: nat)
    ensures
        parse_object(s, i) matches Some((_, end)) ==> i < end <= s.len(),
{
    let start = parse_docs(s, i, Seq::empty()).1;
    lemma_docs_bounds(s, i, Seq::empty());
    if parse_object(s, i) is Some {
        let name = spaces_end(s, start + 6);
        lemma_scan_bounds(s, start + 6);
        lemma_scan_bounds(s, name);
        let open = spaces_end(s, ident_end(s, name));
        lemma_scan_bounds(s, ident_end(s, name));
        lemma_scan_bounds(s, open + 1);
        lemma_methods_bounds(s, spaces_end(s, open + 1), Seq::empty());
    }
}

} // verus!
