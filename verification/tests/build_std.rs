use testutils::os_cmd::presets::cargo_build::{ArgConverter, BuildStd, BuildStdFeatures};

#[test]
fn show_default_build_std() {
    let b = BuildStd::default();
    println!("{b:?}");
}

#[test]
fn test_build_std_to_args() {
    let build_std_with_core_and_alloc = BuildStd::default()
        .with_std(false)
        .with_core(true)
        .with_alloc(true)
        .with_build_default(true);

    assert_eq!(
        build_std_with_core_and_alloc.to_args().first().map(|x| x.as_str()),
        Some("-Z")
    );

    assert_eq!(
        build_std_with_core_and_alloc.to_args().last().map(|x| x.as_str()),
        Some("build-std=core,alloc")
    );

    let build_std_with_default_only = BuildStd::default().with_build_default(true);
    assert_eq!(
        build_std_with_default_only.to_args().last().map(|x| x.as_str()),
        Some("build-std")
    );

    let build_std_none_enabled = BuildStd::default();
    assert_eq!(build_std_none_enabled.to_args().first(), None);
}

#[test]
fn test_default_std_feats() {
    let feats = BuildStdFeatures::default();
    assert!(!feats.get_llvm_libunwind());
    assert!(!feats.get_panic_immediate_abort());
}

#[test]
fn test_std_feats() {
    let feats = BuildStdFeatures::default()
        .with_panic_unwind(true)
        .with_optimize_for_size(true);

    assert!(feats.get_panic_unwind());
    assert!(feats.get_optimize_for_size());
    assert!(!feats.get_panic_immediate_abort());
    let args = feats.to_args();

    args.last()
        .map(|x| assert_eq!(x, "build-std-features=panic_unwind,optimize_for_size"));
}
