use allot::lib_return;

type Return = (
    Option<i32>,
    Option<i32>,
    Option<i32>,
    Option<i32>,
    Option<i32>,
);

fn t1_ret() -> Return {
    lib_return(vec![1, 2, 3, 4, 5])
}

fn t2_ret() -> Return {
    lib_return(vec![1])
}

fn t3_ret() -> Return {
    lib_return(vec![])
}

#[test]
fn t1() {
    assert_eq!((Some(1), Some(2), Some(3), Some(4), Some(5)), t1_ret())
}

#[test]
fn t2() {
    assert_eq!((Some(1), None, None, None, None), t2_ret())
}

#[test]
fn t3() {
    assert_eq!((None, None, None, None, None), t3_ret())
}

#[test]
fn lib_return_keeps_order() {
    let r: (Option<&str>, Option<&str>, Option<&str>, Option<&str>, Option<&str>) =
        lib_return(vec!["a", "b", "c"]);
    assert_eq!(r, (Some("a"), Some("b"), Some("c"), None, None));
}
