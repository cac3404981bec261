use testutils::bool_ext::BoolExt;

#[test]
fn test_bool_ok_or_else() {
    let value = true;
    let res: Result<(), &str> = value.then_ok_or_else(|| "error");
    assert_eq!(res, Ok(()));

    let value = false;
    assert_eq!(value.then_ok_or_else(|| "error"), Err("error"));
}

#[test]
fn test_bool_then_ok_or() {
    let res: Result<(), u32> = true.then_ok_or(7);
    assert_eq!(res, Ok(()));
    assert_eq!(false.then_ok_or(7), Err(7));
}

#[test]
fn test_bool_ok_or_std_io_error() {}
