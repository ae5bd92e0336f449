//! Handles to values that live in the host's heap table.

use vstd::prelude::*;

verus! {

/// The table slot of `undefined`.
pub const JSIDX_UNDEFINED: u32 = 0;
/// The table slot of `null`.
pub const JSIDX_NULL: u32 = 2;
/// The table slot of `true`.
pub const JSIDX_TRUE: u32 = 4;
/// The table slot of `false`.
pub const JSIDX_FALSE: u32 = 6;
/// Slots below this one are reserved for the constants above and are never
/// released.
pub const JSIDX_RESERVED: u32 = 8;

/// A handle to an object owned by the host, named by its slot in the host's
/// heap table. Dropping a handle does not give its slot back to the host:
/// whether it must be given back is [`JsValue::releases_on_drop`], and the
/// caller hands it back.
pub struct JsValue {
    idx: u32,
}

impl View for JsValue {
    type V = u32;

    closed spec fn view(&self) -> u32 {
        self.idx
    }
}

/// The slot of the boolean `b`.
pub open spec fn bool_slot(b: bool) -> u32 {
    if b {
        JSIDX_TRUE
    } else {
        JSIDX_FALSE
    }
}

/// Whether dropping a handle to `idx` hands the slot back to the host.
pub open spec fn releases_slot(idx: u32) -> bool {
    idx >= JSIDX_RESERVED
}

impl JsValue {
    /// A handle to the slot `idx` that the host handed out.
    pub fn _new(idx: u32) -> (v: JsValue)
        ensures
            v@ == idx,
    {
        JsValue { idx }
    }

    /// The slot this handle names.
    pub fn idx(&self) -> (i: u32)
        ensures
            i == self@,
    {
        self.idx
    }

    /// The JS boolean `b`.
    pub fn from_bool(b: bool) -> (v: JsValue)
        ensures
            v@ == bool_slot(b),
    {
        if b {
            JsValue { idx: JSIDX_TRUE }
        } else {
            JsValue { idx: JSIDX_FALSE }
        }
    }

    /// The JS value `undefined`.
    pub fn undefined() -> (v: JsValue)
        ensures
            v@ == JSIDX_UNDEFINED,
    {
        JsValue { idx: JSIDX_UNDEFINED }
    }

    /// The JS value `null`.
    pub fn null() -> (v: JsValue)
        ensures
            v@ == JSIDX_NULL,
    {
        JsValue { idx: JSIDX_NULL }
    }

    /// Whether this handle names a slot on the host's stack rather than in its
    /// heap table: those slots are odd, and such handles are never dropped.
    pub fn is_stack_slot(&self) -> (r: bool)
        ensures
            r == (self@ % 2 == 1),
    {
        let idx = self.idx;
        assert(idx & 1 == idx % 2) by (bit_vector);
        idx & 1 == 1
    }

    /// Whether dropping this handle must hand its slot back to the host: the
    /// reserved slots of the constants are never handed back.
    pub fn releases_on_drop(&self) -> (r: bool)
        ensures
            r == releases_slot(self@),
    {
        self.idx >= JSIDX_RESERVED
    }
}

impl AsRef<JsValue> for JsValue {
    fn as_ref(&self) -> (r: &JsValue)
        ensures
            r@ == self@,
    {
        self
    }
}

impl From<bool> for JsValue {
    fn from(b: bool) -> (v: JsValue) {
        JsValue::from_bool(b)
    }
}

impl vstd::std_specs::convert::FromSpecImpl<bool> for JsValue {
    open spec fn obeys_from_spec() -> bool {
        true
    }

    closed spec fn from_spec(b: bool) -> JsValue {
        JsValue { idx: bool_slot(b) }
    }
}

impl<T: Into<JsValue>> From<Option<T>> for JsValue {
    fn from(s: Option<T>) -> (v: JsValue)
        ensures
            s is None ==> v@ == JSIDX_UNDEFINED,
            s matches Some(x) ==> call_ensures(<T as Into<JsValue>>::into, (x,), v),
    {
        match s {
            Some(s) => s.into(),
            None => JsValue::undefined(),
        }
    }
}

impl<T: Into<JsValue>> vstd::std_specs::convert::FromSpecImpl<Option<T>> for JsValue {
    open spec fn obeys_from_spec() -> bool {
        <T as vstd::std_specs::convert::IntoSpec<JsValue>>::obeys_into_spec()
    }

    closed spec fn from_spec(s: Option<T>) -> JsValue {
        match s {
            Some(t) => <T as vstd::std_specs::convert::IntoSpec<JsValue>>::into_spec(t),
            None => JsValue { idx: JSIDX_UNDEFINED },
        }
    }
}

/// The constants `undefined`, `null`, `true` and `false` sit in distinct
/// slots, none of which is ever handed back to the host.
pub proof fn lemma_constants_distinct_and_kept()
    ensures
        JSIDX_UNDEFINED != JSIDX_NULL,
        JSIDX_UNDEFINED != bool_slot(true),
        JSIDX_UNDEFINED != bool_slot(false),
        JSIDX_NULL != bool_slot(true),
        JSIDX_NULL != bool_slot(false),
        bool_slot(true) != bool_slot(false),
        !releases_slot(JSIDX_UNDEFINED),
        !releases_slot(JSIDX_NULL),
        !releases_slot(bool_slot(true)),
        !releases_slot(bool_slot(false)),
{
}

/// Converting a boolean with `From` gives the same slot as
/// [`JsValue::from_bool`], and converting an optional boolean gives that slot
/// for `Some` and `undefined` for `None`.
pub proof fn lemma_from_agrees_with_from_bool(b: bool)
    ensures
        <JsValue as vstd::std_specs::convert::FromSpec<bool>>::obeys_from_spec(),
        <JsValue as vstd::std_specs::convert::FromSpec<bool>>::from_spec(b)@ == bool_slot(b),
        <JsValue as vstd::std_specs::convert::FromSpec<Option<bool>>>::obeys_from_spec(),
        <JsValue as vstd::std_specs::convert::FromSpec<Option<bool>>>::from_spec(Some(b))@
            == bool_slot(b),
        <JsValue as vstd::std_specs::convert::FromSpec<Option<bool>>>::from_spec(None)@
            == JSIDX_UNDEFINED,
{
}

/// Exactly the slots from `8` up are handed back when a handle is dropped;
/// the slots below are the reserved constants and are kept.
pub proof fn lemma_releases_exactly_heap_slots(idx: u32)
    ensures
        releases_slot(idx) <==> idx >= 8,
        JSIDX_RESERVED == 8,
{
}

/// Two booleans give the same slot only when they are equal.
pub proof fn lemma_bool_slot_injective(a: bool, b: bool)
    ensures
        bool_slot(a) == bool_slot(b) <==> a == b,
{
}

} // verus!
