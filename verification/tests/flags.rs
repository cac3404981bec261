use testutils::os_cmd::collect::collect_to_ministr_slice;
use testutils::os_cmd::presets::cargo_build::flags::{CodeModel, LinkerFlavor, RustFlags};
use testutils::os_cmd::presets::cargo_build::CargoProfile;

#[test]
fn test_default_flags() {
    let flags = RustFlags::default();
    assert_eq!(flags.get_other_flags().len(), 0);
    assert_eq!(flags.get_crt_static(), None);
    assert_eq!(flags.get_prefer_dynamic(), None);
    assert_eq!(flags.get_linker(), "");
    assert_eq!(flags.get_link_self_contained(), None);
    assert_eq!(flags.get_codegen_units(), None);
    assert_eq!(flags.get_native_target_cpu(), None);
}

#[test]
fn test_rust_flags_into_vec() {
    let flags = RustFlags::default()
        .with_code_model(CodeModel::Large)
        .with_crt_static(Some(false))
        .with_prefer_dynamic(Some(true))
        .with_linker("ldd".into())
        .with_other_flags(collect_to_ministr_slice(&["-L", "/lib"]))
        .into_vec();

    println!("{}", flags.join(" "));
}

#[test]
fn test_into_vec2() {
    let flags = RustFlags::default()
        .with_crt_static(Some(false))
        .with_prefer_dynamic(Some(true))
        .with_linker_flavor(LinkerFlavor::GNUbinutilsLLVMLLD)
        .with_other_flags(collect_to_ministr_slice(&[
            "-C",
            "link-arg=-ffunction-sections",
            "-C",
            "link-arg=-fdata-sections",
        ]))
        .into_vec();
    assert_eq!(
        flags,
        [
            "-C",
            "target-feature=-crt-static",
            "-C",
            "prefer-dynamic=true",
            "-C",
            "linker-flavor=ld.lld",
            "-C",
            "link-arg=-ffunction-sections",
            "-C",
            "link-arg=-fdata-sections",
        ]
    );
}

#[test]
fn test_codegen_units_formatting() {
    let flags = RustFlags::default().with_codegen_units(Some(16)).into_vec();
    assert_eq!(flags, ["-C", "codegen-units=16"]);

    let flags = RustFlags::default().with_codegen_units(Some(0)).into_vec();
    assert_eq!(flags, ["-C", "codegen-units=0"]);
}

#[test]
fn test_cargo_profile_dev() {
    let profile: CargoProfile = CargoProfile::Debug;
    assert_eq!(profile, "debug".into());
    assert_eq!(profile, "dev".into());
    assert_eq!(profile.as_str(), "dev");
}
