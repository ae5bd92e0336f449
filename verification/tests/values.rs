use wasm_bindgen::clamped::Clamped;
use wasm_bindgen::host::{
    bool_answer, debug_repr, equals_bool, number_answer, query_holds, values_equal, DebugRepr,
};
use wasm_bindgen::value::{
    JsValue, JSIDX_FALSE, JSIDX_NULL, JSIDX_RESERVED, JSIDX_TRUE, JSIDX_UNDEFINED,
};

#[test]
fn constants_have_their_slots() {
    assert_eq!(JsValue::undefined().idx(), 0);
    assert_eq!(JsValue::null().idx(), 2);
    assert_eq!(JsValue::from_bool(true).idx(), 4);
    assert_eq!(JsValue::from_bool(false).idx(), 6);
    assert_eq!(JSIDX_RESERVED, 8);
}

#[test]
fn constants_distinct_and_kept() {
    let slots = [JSIDX_UNDEFINED, JSIDX_NULL, JSIDX_TRUE, JSIDX_FALSE];
    for (i, a) in slots.iter().enumerate() {
        assert!(!JsValue::_new(*a).releases_on_drop());
        for b in slots.iter().skip(i + 1) {
            assert_ne!(a, b);
        }
    }
    assert!(!JsValue::undefined().releases_on_drop());
    assert!(!JsValue::null().releases_on_drop());
    assert!(!JsValue::from_bool(true).releases_on_drop());
}

#[test]
fn heap_slots_are_released() {
    assert!(JsValue::_new(8).releases_on_drop());
    assert!(JsValue::_new(32).releases_on_drop());
    assert!(!JsValue::_new(7).releases_on_drop());
}

#[test]
fn from_impls() {
    assert_eq!(JsValue::from(true).idx(), JSIDX_TRUE);
    assert_eq!(JsValue::from(false).idx(), JSIDX_FALSE);
    assert_eq!(JsValue::from(Some(true)).idx(), JSIDX_TRUE);
    assert_eq!(JsValue::from(None::<bool>).idx(), JSIDX_UNDEFINED);
    let v = JsValue::_new(40);
    assert_eq!(AsRef::<JsValue>::as_ref(&v).idx(), 40);
}

#[test]
fn query_codes() {
    assert!(query_holds(1));
    assert!(!query_holds(0));
    assert!(!query_holds(2));
    assert!(values_equal(1));
    assert!(values_equal(9));
    assert!(!values_equal(0));
}

#[test]
fn bool_codes() {
    assert_eq!(bool_answer(0), Some(false));
    assert_eq!(bool_answer(1), Some(true));
    assert_eq!(bool_answer(2), None);
    assert!(equals_bool(1, true));
    assert!(!equals_bool(1, false));
    assert!(equals_bool(0, false));
    assert!(!equals_bool(0, true));
    assert!(!equals_bool(5, true));
    assert!(!equals_bool(5, false));
}

#[test]
fn number_codes() {
    assert_eq!(number_answer(1.5f64, 0), Some(1.5));
    assert_eq!(number_answer(1.5f64, 1), None);
    assert_eq!(number_answer(2.0f64, 2), Some(2.0));
}

#[test]
fn debug_priority() {
    let r = debug_repr(Some(1.0f64), Some("s"), Some(true), true, true, true);
    assert!(matches!(r, DebugRepr::Number(n) if n == 1.0));
    let r = debug_repr(None::<f64>, Some("s"), Some(true), true, true, true);
    assert!(matches!(r, DebugRepr::Text("s")));
    let r = debug_repr(None::<f64>, None::<&str>, Some(false), true, true, true);
    assert!(matches!(r, DebugRepr::Bool(false)));
    let r = debug_repr(None::<f64>, None::<&str>, None, true, true, true);
    assert_eq!(r.label(), Some("null"));
    let r = debug_repr(None::<f64>, None::<&str>, None, false, true, true);
    assert_eq!(r.label(), Some("undefined"));
    let r = debug_repr(None::<f64>, None::<&str>, None, false, false, true);
    assert_eq!(r.label(), Some("Symbol(..)"));
    let r = debug_repr(None::<f64>, None::<&str>, None, false, false, false);
    assert_eq!(r.label(), Some("[object]"));
    let r = debug_repr(Some(3u32), None::<&str>, None, false, false, false);
    assert_eq!(r.label(), None);
}

#[test]
fn clamped_derefs() {
    let mut c = Clamped(vec![1u8, 2, 3]);
    assert_eq!(c.len(), 3);
    assert_eq!(*c, vec![1, 2, 3]);
    c.deref_mut().push(4);
    assert_eq!(c.0, vec![1, 2, 3, 4]);
    assert_eq!(Clamped(5u8), Clamped(5u8));
}

#[test]
fn stack_slots_are_odd() {
    assert!(JsValue::_new(3).is_stack_slot());
    assert!(JsValue::_new(1).is_stack_slot());
    assert!(!JsValue::_new(8).is_stack_slot());
    assert!(!JsValue::null().is_stack_slot());
}

#[test]
fn from_option_of_any_convertible() {
    assert_eq!(JsValue::from(None::<JsValue>).idx(), JSIDX_UNDEFINED);
    assert_eq!(JsValue::from(Some(JsValue::_new(40))).idx(), 40);
    assert_eq!(JsValue::from(Some(false)).idx(), JSIDX_FALSE);
}
