use jscjs::{c_text, holds_nul, settle, Context, Object, Owned, String, Value, VM};

#[test]
fn it_works() {}

#[test]
fn default_value_is_empty() {
    let v = Value::default();
    assert!(v.is_empty());
    assert_eq!(v.raw(), 0);
    let o = Object::default();
    assert!(o.is_empty());
    assert_eq!(o.raw(), 0);
}

#[test]
fn engine_handle_is_not_empty() {
    let v = Value::from_raw(0x1000);
    assert!(!v.is_empty());
    assert_eq!(v.raw(), 0x1000);
    let o = Object::from_raw(0x2000);
    assert!(!o.is_empty());
    let w = o.as_value();
    assert!(!w.is_empty());
    assert_eq!(w.raw(), 0x2000);
}

#[test]
fn null_address_is_the_sentinel() {
    assert!(Value::from_raw(0).is_empty());
    assert!(Object::from_raw(0).is_empty());
    assert!(Object::default().as_value().is_empty());
}

#[test]
fn empty_slot_settles_to_ok() {
    let r = settle(42u32, Value::default());
    assert_eq!(r.ok(), Some(42u32));
}

#[test]
fn number_result_passes_through() {
    let r = settle(42.0f64, Value::from_raw(0));
    assert_eq!(r.ok(), Some(42.0f64));
}

#[test]
fn thrown_value_settles_to_err() {
    let r = settle(1.5f64, Value::from_raw(0x30));
    match r {
        Ok(_) => panic!("a thrown value must not be dropped"),
        Err(e) => assert_eq!(e.raw(), 0x30),
    }
}

#[test]
fn failed_syntax_check_is_an_error_not_false() {
    let r = settle(false, Value::from_raw(0x40));
    assert!(r.is_err());
    let r = settle(false, Value::default());
    assert_eq!(r.ok(), Some(false));
}

#[test]
fn failed_array_construction_keeps_exception() {
    let r = settle(Object::from_raw(0x50), Value::from_raw(0x60));
    match r {
        Ok(_) => panic!("the exception slot decides"),
        Err(e) => assert_eq!(e.raw(), 0x60),
    }
    let r = settle(Object::from_raw(0x50), Value::default());
    assert_eq!(r.map(|o| o.raw()).ok(), Some(0x50));
}

#[test]
fn release_hands_handle_out_once() {
    let mut o = Owned::acquire(77);
    assert!(o.is_live());
    assert_eq!(o.get(), Some(77));
    assert_eq!(o.release(), Some(77));
    assert!(!o.is_live());
    assert_eq!(o.get(), None);
    assert_eq!(o.release(), None);
    assert_eq!(o.release(), None);
    assert_eq!(o.handle(), 77);
}

#[test]
fn create_count_matches_release_count() {
    let mut vm = VM::adopt(1);
    let mut ctx = Context::adopt(&vm, 2);
    let mut s = String::adopt(3);
    let mut released: Vec<usize> = Vec::new();
    for _ in 0..3 {
        if let Some(h) = s.release() {
            released.push(h);
        }
        if let Some(h) = ctx.release() {
            released.push(h);
        }
        if let Some(h) = vm.release() {
            released.push(h);
        }
    }
    assert_eq!(released, vec![3, 2, 1]);
    assert_eq!(vm.raw(), None);
    assert_eq!(ctx.raw(), None);
    assert_eq!(s.raw(), None);
}

#[test]
fn context_remembers_its_group() {
    let vm = VM::adopt(0x100);
    let ctx = Context::adopt(&vm, 0x200);
    assert_eq!(ctx.group(), 0x100);
    assert_eq!(ctx.raw(), Some(0x200));
    assert_eq!(vm.raw(), Some(0x100));
}

#[test]
fn c_text_appends_terminator() {
    assert_eq!(c_text("Hello World"), b"Hello World\0".to_vec());
    assert_eq!(c_text("42"), vec![b'4', b'2', 0]);
}

#[test]
fn c_text_of_empty_text() {
    assert_eq!(c_text(""), vec![0]);
}

#[test]
fn c_text_keeps_utf8_bytes() {
    assert_eq!(c_text("\u{e9}"), vec![0xc3, 0xa9, 0]);
}

#[test]
fn holds_nul_finds_interior_nul() {
    assert!(holds_nul("dead\0beef"));
    assert!(holds_nul("\0"));
    assert!(holds_nul("tail\0"));
    assert!(!holds_nul("deadbeef"));
    assert!(!holds_nul(""));
    assert!(!holds_nul("function"));
}

#[test]
fn script_call_carries_its_inputs() {
    let vm = VM::adopt(0x10);
    let ctx = Context::adopt(&vm, 0x20);
    let receiver = Object::from_raw(0x30);
    let call = ctx.script_call("42", &receiver, "https://webkit.org/", 0);
    assert_eq!(call.context, 0x20);
    assert_eq!(call.script, vec![b'4', b'2', 0]);
    assert_eq!(call.receiver, 0x30);
    assert_eq!(call.label, b"https://webkit.org/\0".to_vec());
    assert_eq!(call.starting_line, 0);
}

#[test]
fn script_call_without_receiver() {
    let vm = VM::adopt(0x10);
    let ctx = Context::adopt(&vm, 0x20);
    let call = ctx.script_call("function", &Object::default(), "https://webkit.org/", 7);
    assert_eq!(call.receiver, 0);
    assert_eq!(call.script, b"function\0".to_vec());
    assert_eq!(call.starting_line, 7);
}

#[test]
fn array_arguments_keep_order_and_duplicates() {
    let a = Value::from_raw(0x11);
    let b = Value::from_raw(0x22);
    let args = [a, b, a, Value::default()];
    assert_eq!(Object::array_arguments(&args), vec![0x11, 0x22, 0x11, 0]);
}

#[test]
fn array_arguments_of_empty_input() {
    assert_eq!(Object::array_arguments(&[]), Vec::<usize>::new());
}
