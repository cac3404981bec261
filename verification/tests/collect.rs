use testutils::os_cmd::collect::collect_to_args;

#[test]
fn test_collect_owned_slice() {
    let slice = collect_to_args(["cargo", "+nightly", "fmt"]);

    assert_eq!(slice.len(), 3);
    assert_eq!(slice[0], "cargo");
    assert_eq!(slice[1], "+nightly");
    assert_eq!(slice[2], "fmt");
}
