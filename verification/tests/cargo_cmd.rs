use testutils::os_cmd::Runner;
use testutils::os_cmd::presets::cargo_build::flags::RustFlags;
use testutils::os_cmd::presets::CargoCmd;
use testutils::os_cmd::presets::cargo_build::{BuildStd, BuildStdFeatures, CargoProfile, RustcTarget, SubCmd};

#[test]
fn cargo_cmd() {
    let vec = CargoCmd::default()
        .with_nightly(true)
        .with_pkg("testutils".into())
        .with_target(RustcTarget::aarch64_linux_android)
        .with_build_std(BuildStd::default().with_alloc(true).with_core(true))
        .with_build_std_features(BuildStdFeatures::default().with_panic_immediate_abort(true))
        .into_vec();

    assert_eq!(
        vec,
        [
            "cargo",
            "+nightly",
            "build",
            "--profile=release",
            "--package=testutils",
            "--target=aarch64-linux-android",
            "-Z",
            "build-std=core,alloc",
            "-Z",
            "build-std-features=panic_immediate_abort"
        ]
    );
}

#[test]
fn test_cargo_build_command() {
    let vec = CargoCmd::default()
        .with_nightly(true)
        .with_pkg("testutils".into())
        .with_target(RustcTarget::aarch64_linux_android)
        .with_build_std(BuildStd::default().with_alloc(true).with_core(true))
        .with_build_std_features(BuildStdFeatures::default().with_panic_immediate_abort(true))
        .into_vec();
    assert_eq!(
        vec,
        [
            "cargo",
            "+nightly",
            "build",
            "--profile=release",
            "--package=testutils",
            "--target=aarch64-linux-android",
            "-Z",
            "build-std=core,alloc",
            "-Z",
            "build-std-features=panic_immediate_abort"
        ]
    );
    println!("{vec:?}");
    let _runner: Runner = vec.into();
}

#[test]
fn show_default_cargo_build() {
    let cmd = CargoCmd::default();
    println!("{cmd:?}");
}

#[test]
fn test_into_parts_rustflags() {
    let cmd = CargoCmd::default().with_rust_flags(
        RustFlags::default()
            .with_crt_static(Some(false))
            .with_prefer_dynamic(Some(true)),
    );
    let (argv, rustflags) = cmd.into_parts();
    assert_eq!(argv, ["cargo", "build", "--profile=release"]);
    assert_eq!(rustflags, "-C target-feature=-crt-static -C prefer-dynamic=true");
}

#[test]
fn empty_values_are_omitted() {
    // An empty cargo name falls back to the literal `cargo`.
    let vec = CargoCmd::default().with_cargo("".into()).into_vec();
    assert_eq!(vec, ["cargo", "build", "--profile=release"]);

    // An empty custom profile produces no `--profile=` argument at all.
    let vec = CargoCmd::default()
        .with_profile(CargoProfile::Custom("".into()))
        .into_vec();
    assert_eq!(vec, ["cargo", "build"]);

    // An empty custom sub-command still contributes its (empty) token.
    let vec = CargoCmd::default()
        .with_sub_command(SubCmd::Custom("".into()))
        .into_vec();
    assert_eq!(vec, ["cargo", "", "--profile=release"]);

    // Features are joined with commas behind one flag.
    let vec = CargoCmd::default()
        .with_features(vec!["serde".to_string(), "rayon".to_string()])
        .into_vec();
    assert_eq!(vec, ["cargo", "build", "--profile=release", "--features=serde,rayon"]);
}
