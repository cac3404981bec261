use testutils::os_cmd::{CommandRepr, Runner};

#[test]
fn test_cmd_runner() {
    let runner = Runner::default().with_command(CommandRepr::Raw("cargo +nightly fmt"));
    assert_eq!(runner.get_remove_comments(), true);
}

#[test]
fn test_cargo_doc_runner() {}

#[test]
fn show_default_runner() {
    let runner = Runner::default();
    println!("{runner:?}");
}
