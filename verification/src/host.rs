//! The decisions the runtime takes on the answers the host gives to queries
//! about a value: the host answers with plain codes, and these functions say
//! what each code means.

use vstd::prelude::*;

verus! {

/// Whether the host answered a yes/no query (is it a string, `null`,
/// `undefined`, a symbol, an object, a function?) with yes: only `1` is yes.
pub fn query_holds(code: u32) -> (r: bool)
    ensures
        r == (code == 1),
{
    code == 1
}

/// Whether the host reported two values as equal: any code but `0` is yes.
pub fn values_equal(code: u32) -> (r: bool)
    ensures
        r == (code != 0),
{
    code != 0
}

/// The boolean the host reported: `0` is `false`, `1` is `true`, and any other
/// code means the value is not a boolean.
pub open spec fn bool_answer_spec(code: u32) -> Option<bool> {
    if code == 0 {
        Some(false)
    } else if code == 1 {
        Some(true)
    } else {
        None
    }
}

/// The boolean the host reported for a value, if it is one.
pub fn bool_answer(code: u32) -> (r: Option<bool>)
    ensures
        r == bool_answer_spec(code),
{
    match code {
        0 => Some(false),
        1 => Some(true),
        _ => None,
    }
}

/// Whether a value whose boolean query got `code` equals the boolean `other`:
/// only a boolean equal to `other` does.
pub fn equals_bool(code: u32, other: bool) -> (r: bool)
    ensures
        r == (bool_answer_spec(code) == Some(other)),
{
    match bool_answer(code) {
        Some(b) => b == other,
        None => false,
    }
}

/// The number the host reported: `invalid == 1` means the value is not a
/// number and `value` means nothing.
pub fn number_answer<N>(value: N, invalid: u8) -> (r: Option<N>)
    ensures
        invalid == 1 ==> r is None,
        invalid != 1 ==> r == Some(value),
{
    if invalid == 1 {
        None
    } else {
        Some(value)
    }
}

/// How a value is written for debugging.
pub enum DebugRepr<N, S> {
    /// As the number it is.
    Number(N),
    /// As the string it is.
    Text(S),
    /// As the boolean it is.
    Bool(bool),
    /// As `null`.
    Null,
    /// As `undefined`.
    Undefined,
    /// As a symbol, whose description is not shown.
    Symbol,
    /// As some other object.
    Object,
}

/// The first of the queries, in the order number, string, boolean, `null`,
/// `undefined`, symbol, that recognises the value decides how it is written;
/// a value none of them recognises is written as an object.
pub open spec fn debug_repr_spec<N, S>(
    number: Option<N>,
    text: Option<S>,
    boolean: Option<bool>,
    is_null: bool,
    is_undefined: bool,
    is_symbol: bool,
) -> DebugRepr<N, S> {
    if let Some(n) = number {
        DebugRepr::Number(n)
    } else if let Some(s) = text {
        DebugRepr::Text(s)
    } else if let Some(b) = boolean {
        DebugRepr::Bool(b)
    } else if is_null {
        DebugRepr::Null
    } else if is_undefined {
        DebugRepr::Undefined
    } else if is_symbol {
        DebugRepr::Symbol
    } else {
        DebugRepr::Object
    }
}

/// Decides how a value is written for debugging from the host's answers to
/// the queries about it.
pub fn debug_repr<N, S>(
    number: Option<N>,
    text: Option<S>,
    boolean: Option<bool>,
    is_null: bool,
    is_undefined: bool,
    is_symbol: bool,
) -> (r: DebugRepr<N, S>)
    ensures
        r == debug_repr_spec(number, text, boolean, is_null, is_undefined, is_symbol),
{
    if let Some(n) = number {
        return DebugRepr::Number(n);
    }
    if let Some(s) = text {
        return DebugRepr::Text(s);
    }
    if let Some(b) = boolean {
        return DebugRepr::Bool(b);
    }
    if is_null {
        return DebugRepr::Null;
    }
    if is_undefined {
        return DebugRepr::Undefined;
    }
    if is_symbol {
        return DebugRepr::Symbol;
    }
    DebugRepr::Object
}

/// The fixed text of a representation, for those that have one.
pub open spec fn label_spec<N, S>(r: DebugRepr<N, S>) -> Option<Seq<char>> {
    match r {
        DebugRepr::Null => Some("null"@),
        DebugRepr::Undefined => Some("undefined"@),
        DebugRepr::Symbol => Some("Symbol(..)"@),
        DebugRepr::Object => Some("[object]"@),
        _ => None,
    }
}

impl<N, S> DebugRepr<N, S> {
    /// The fixed text written for `null`, `undefined`, a symbol or an object;
    /// `None` for a number, string or boolean, which are written as such.
    pub fn label(&self) -> (l: Option<&'static str>)
        ensures
            match label_spec(*self) {
                Some(t) => l matches Some(s) && s@ == t,
                None => l is None,
            },
    {
        match self {
            DebugRepr::Null => Some("null"),
            DebugRepr::Undefined => Some("undefined"),
            DebugRepr::Symbol => Some("Symbol(..)"),
            DebugRepr::Object => Some("[object]"),
            _ => None,
        }
    }
}

/// How a value is written for debugging, by the first query that recognises
/// it: a number is written as that number, else a string as that string, else
/// a boolean as that very boolean; only a value that none of these recognises
/// is written as `null`, `undefined`, a symbol or an object, in that order.
pub proof fn lemma_debug_repr_carries_the_answer<N, S>(
    n: N,
    s: S,
    b: bool,
    number: Option<N>,
    text: Option<S>,
    boolean: Option<bool>,
    is_null: bool,
    is_undefined: bool,
    is_symbol: bool,
)
    ensures
        debug_repr_spec(Some(n), text, boolean, is_null, is_undefined, is_symbol)
            == DebugRepr::<N, S>::Number(n),
        debug_repr_spec(None::<N>, Some(s), boolean, is_null, is_undefined, is_symbol)
            == DebugRepr::<N, S>::Text(s),
        debug_repr_spec(None::<N>, None::<S>, Some(b), is_null, is_undefined, is_symbol)
            == DebugRepr::<N, S>::Bool(b),
        debug_repr_spec(None::<N>, None::<S>, None, true, is_undefined, is_symbol)
            == DebugRepr::<N, S>::Null,
        debug_repr_spec(None::<N>, None::<S>, None, false, true, is_symbol)
            == DebugRepr::<N, S>::Undefined,
        debug_repr_spec(None::<N>, None::<S>, None, false, false, true) == DebugRepr::<N, S>::Symbol,
        debug_repr_spec(None::<N>, None::<S>, None, false, false, false) == DebugRepr::<N, S>::Object,
{
}

/// Numbers, strings and booleans are written as themselves and have no fixed
/// text; `null`, `undefined`, symbols and other objects are written as
/// `null`, `undefined`, `Symbol(..)` and `[object]`.
pub proof fn lemma_labels<N, S>(n: N, s: S, b: bool)
    ensures
        label_spec(DebugRepr::<N, S>::Number(n)) is None,
        label_spec(DebugRepr::<N, S>::Text(s)) is None,
        label_spec(DebugRepr::<N, S>::Bool(b)) is None,
        label_spec(DebugRepr::<N, S>::Null) == Some("null"@),
        label_spec(DebugRepr::<N, S>::Undefined) == Some("undefined"@),
        label_spec(DebugRepr::<N, S>::Symbol) == Some("Symbol(..)"@),
        label_spec(DebugRepr::<N, S>::Object) == Some("[object]"@),
{
}

/// Exactly the codes `0` and `1` are booleans, and each is equal to exactly
/// one boolean.
pub proof fn lemma_bool_codes(code: u32, b: bool)
    ensures
        bool_answer_spec(code) is Some <==> (code == 0 || code == 1),
        bool_answer_spec(code) == Some(b) <==> code == (if b { 1u32 } else { 0u32 }),
{
}

} // verus!
