use testutils::os_cmd::presets::{CargoDoc, CargoFmt};
use testutils::os_cmd::{CommandRepr, Runner};

#[test]
fn test_cargo_doc_cmd() {
    let cmd = CargoDoc::default().with_pkg("testutils");
    assert_eq!(cmd.get_pkg(), "testutils");
    assert_eq!(cmd.get_custom_cfg(), "__unstable_doc");
    assert!(cmd.get_nightly());
    assert!(cmd.get_open());
    assert!(cmd.get_enable_private_items());

    let cmd_repr: CommandRepr = cmd.into();
    let _runner: Runner = cmd_repr.into();
}

#[test]
fn show_cargo_doc_default() {
    let cmd = CargoDoc::default();
    println!("{cmd:?}");
}

#[test]
fn test_cargo_doc_into_slice() {
    let tokens = CargoDoc::default().with_pkg("demo").into_slice();
    assert_eq!(
        tokens,
        [
            "cargo",
            "+nightly",
            "rustdoc",
            "--package",
            "demo",
            "--all-features",
            "--open",
            "--",
            "--cfg",
            "__unstable_doc",
            "--document-private-items",
        ]
    );
}

#[test]
fn cargo_fmt_test_cargo_fmt_cmd() {
    let cmd: CommandRepr = CargoFmt::default().with_nightly(true).into();
    println!("{cmd:?}");
}

#[test]
fn misc_test_cargo_fmt_cmd() {
    let cmd = CargoFmt::default().with_nightly(false);
    assert!(!cmd.get_nightly());
}
