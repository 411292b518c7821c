//! The names that the two sides of the boundary agree on: the symbols of
//! destructors and of poll functions, the names of flattened arguments,
//! and the names of locals in generated code.

use vstd::prelude::*;
use vstd::string::StringExecFns;

verus! {

/// The character of a decimal digit.
pub open spec fn digit(d: nat) -> char {
    if d == 0 {
        '0'
    } else if d == 1 {
        '1'
    } else if d == 2 {
        '2'
    } else if d == 3 {
        '3'
    } else if d == 4 {
        '4'
    } else if d == 5 {
        '5'
    } else if d == 6 {
        '6'
    } else if d == 7 {
        '7'
    } else if d == 8 {
        '8'
    } else {
        '9'
    }
}

/// The decimal numeral of a number, without leading zeros.
pub open spec fn decimal(n: nat) -> Seq<char>
    decreases n,
{
    if n < 10 {
        seq![digit(n)]
    } else {
        decimal(n / 10).push(digit(n % 10))
    }
}

/// The text of a decimal digit.
fn digit_str(d: usize) -> (s: &'static str)
    requires
        d < 10,
    ensures
        s@ == seq![digit(d as nat)],
{
    proof {
        reveal_strlit("0");
        reveal_strlit("1");
        reveal_strlit("2");
        reveal_strlit("3");
        reveal_strlit("4");
        reveal_strlit("5");
        reveal_strlit("6");
        reveal_strlit("7");
        reveal_strlit("8");
        reveal_strlit("9");
    }
    let s = if d == 0 {
        "0"
    } else if d == 1 {
        "1"
    } else if d == 2 {
        "2"
    } else if d == 3 {
        "3"
    } else if d == 4 {
        "4"
    } else if d == 5 {
        "5"
    } else if d == 6 {
        "6"
    } else if d == 7 {
        "7"
    } else if d == 8 {
        "8"
    } else {
        "9"
    };
    assert(s@ =~= seq![digit(d as nat)]);
    s
}

/// Appends the decimal numeral of `n` to a string.
pub fn push_decimal(s: &mut String, n: usize)
    ensures
        final(s)@ == old(s)@ + decimal(n as nat),
    decreases n,
{
    if n >= 10 {
        push_decimal(s, n / 10);
    }
    s.append(digit_str(n % 10));
}

/// The name followed by the decimal numeral of an index.
pub open spec fn indexed(name: Seq<char>, index: nat) -> Seq<char> {
    name + decimal(index)
}

/// Returns the name followed by the decimal numeral of an index.
pub fn indexed_name(name: &str, index: usize) -> (res: String)
    ensures
        res@ == indexed(name@, index as nat),
{
    let mut res = String::from_str(name);
    push_decimal(&mut res, index);
    res
}

/// The symbol of the destructor of an object type: `drop_box_<name>`.
pub open spec fn destructor_symbol(object: Seq<char>) -> Seq<char> {
    "drop_box_"@ + object
}

/// Returns the symbol of the destructor of an object type.
pub fn destructor_name(object: &str) -> (res: String)
    ensures
        res@ == destructor_symbol(object@),
{
    let mut res = String::from_str("drop_box_");
    res.append(object);
    res
}

/// The symbol of the poll function of the future that the function of the
/// given symbol returns: `<symbol>_future_poll`.
pub open spec fn future_poll_symbol(symbol: Seq<char>) -> Seq<char> {
    symbol + "_future_poll"@
}

/// The symbol of the destructor of the future that the function of the
/// given symbol returns: `<symbol>_future_drop`.
pub open spec fn future_drop_symbol(symbol: Seq<char>) -> Seq<char> {
    symbol + "_future_drop"@
}

/// The symbol of the poll function of the stream that the function of the
/// given symbol returns: `<symbol>_stream_poll`.
pub open spec fn stream_poll_symbol(symbol: Seq<char>) -> Seq<char> {
    symbol + "_stream_poll"@
}

/// The symbol of the destructor of the stream that the function of the
/// given symbol returns: `<symbol>_stream_drop`.
pub open spec fn stream_drop_symbol(symbol: Seq<char>) -> Seq<char> {
    symbol + "_stream_drop"@
}

/// Puts one text behind another.
pub fn suffixed(text: &str, after: &str) -> (res: String)
    ensures
        res@ == text@ + after@,
{
    let mut res = String::from_str(text);
    res.append(after);
    res
}

/// Returns the symbol of the poll function of a future.
pub fn future_poll_name(symbol: &str) -> (res: String)
    ensures
        res@ == future_poll_symbol(symbol@),
{
    suffixed(symbol, "_future_poll")
}

/// Returns the symbol of the destructor of a future.
pub fn future_drop_name(symbol: &str) -> (res: String)
    ensures
        res@ == future_drop_symbol(symbol@),
{
    suffixed(symbol, "_future_drop")
}

/// Returns the symbol of the poll function of a stream.
pub fn stream_poll_name(symbol: &str) -> (res: String)
    ensures
        res@ == stream_poll_symbol(symbol@),
{
    suffixed(symbol, "_stream_poll")
}

/// Returns the symbol of the destructor of a stream.
pub fn stream_drop_name(symbol: &str) -> (res: String)
    ensures
        res@ == stream_drop_symbol(symbol@),
{
    suffixed(symbol, "_stream_drop")
}

/// A text is found again behind a prefix: two texts with one prefix are
/// equal only where they are equal themselves.
pub proof fn lemma_prefix_cancels(prefix: Seq<char>, a: Seq<char>, b: Seq<char>)
    requires
        prefix + a == prefix + b,
    ensures
        a == b,
{
    assert(a =~= (prefix + a).subrange(prefix.len() as int, (prefix + a).len() as int));
    assert(b =~= (prefix + b).subrange(prefix.len() as int, (prefix + b).len() as int));
}

/// A text is found again before a suffix: two texts with one suffix are
/// equal only where they are equal themselves.
pub proof fn lemma_suffix_cancels(a: Seq<char>, b: Seq<char>, suffix: Seq<char>)
    requires
        a + suffix == b + suffix,
    ensures
        a == b,
{
    assert((a + suffix).len() == (b + suffix).len());
    assert(a =~= (a + suffix).subrange(0, a.len() as int));
    assert(b =~= (b + suffix).subrange(0, b.len() as int));
}

/// No two object types share a destructor, and no two functions share the
/// poll function or the destructor of their future or stream.
pub proof fn derived_symbols_are_injective(a: Seq<char>, b: Seq<char>)
    ensures
        destructor_symbol(a) == destructor_symbol(b) ==> a == b,
        future_poll_symbol(a) == future_poll_symbol(b) ==> a == b,
        future_drop_symbol(a) == future_drop_symbol(b) ==> a == b,
        stream_poll_symbol(a) == stream_poll_symbol(b) ==> a == b,
        stream_drop_symbol(a) == stream_drop_symbol(b) ==> a == b,
{
    if destructor_symbol(a) == destructor_symbol(b) {
        lemma_prefix_cancels("drop_box_"@, a, b);
    }
    if future_poll_symbol(a) == future_poll_symbol(b) {
        lemma_suffix_cancels(a, b, "_future_poll"@);
    }
    if future_drop_symbol(a) == future_drop_symbol(b) {
        lemma_suffix_cancels(a, b, "_future_drop"@);
    }
    if stream_poll_symbol(a) == stream_poll_symbol(b) {
        lemma_suffix_cancels(a, b, "_stream_poll"@);
    }
    if stream_drop_symbol(a) == stream_drop_symbol(b) {
        lemma_suffix_cancels(a, b, "_stream_drop"@);
    }
}

/// The name of the local that holds a slot in generated code: `tmp`
/// followed by the binding.
pub open spec fn spec_var_name(binding: nat) -> Seq<char> {
    indexed("tmp"@, binding)
}

/// Returns the name of the local that holds a slot in generated code.
pub fn var_name(binding: u32) -> (res: String)
    ensures
        res@ == spec_var_name(binding as nat),
{
    indexed_name("tmp", binding as usize)
}

} // verus!
