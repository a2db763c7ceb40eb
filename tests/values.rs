use compiler_llvm_builder::ccache_variant::CcacheVariant;
use compiler_llvm_builder::platforms::parse_targets;
use compiler_llvm_builder::platforms::unescape_extra_args;
use compiler_llvm_builder::platforms::Arch;
use compiler_llvm_builder::sanitizer::Sanitizer;
use compiler_llvm_builder::target_env::TargetEnv;
use compiler_llvm_builder::target_triple::TargetTriple;
use compiler_llvm_builder::text::decimal_of;
use compiler_llvm_builder::text::join;
use compiler_llvm_builder::text::push_path;
use compiler_llvm_builder::text::str_equal;
use compiler_llvm_builder::text::strip_first;
use compiler_llvm_builder::BuildType;
use compiler_llvm_builder::Platform;

fn strings(items: &[&str]) -> Vec<String> {
    items.iter().map(|s| s.to_string()).collect()
}

#[test]
fn build_type_from_debug_flag() {
    assert_eq!(BuildType::from(true), BuildType::Debug);
    assert_eq!(BuildType::from(false), BuildType::Release);
    assert_eq!(BuildType::Debug.to_string(), "Debug");
    assert_eq!(BuildType::Release.to_string(), "Release");
}

#[test]
fn target_env_names_round_trip() {
    assert_eq!(TargetEnv::from_str("gnu"), Ok(TargetEnv::GNU));
    assert_eq!(TargetEnv::from_str("musl"), Ok(TargetEnv::MUSL));
    assert_eq!(TargetEnv::GNU.to_string(), "gnu");
    assert_eq!(TargetEnv::MUSL.to_string(), "musl");
}

#[test]
fn target_env_unknown_is_refused() {
    assert_eq!(
        TargetEnv::from_str("MUSL"),
        Err("Unsupported target environment: `MUSL`".to_string())
    );
    assert_eq!(
        TargetEnv::from_str(""),
        Err("Unsupported target environment: ``".to_string())
    );
}

#[test]
fn target_triple_names() {
    assert_eq!(TargetTriple::from_str("eravm"), Ok(TargetTriple::EraVM));
    assert_eq!(TargetTriple::from_str("evm"), Ok(TargetTriple::EVM));
    assert_eq!(TargetTriple::EraVM.to_string(), "eravm");
    assert_eq!(
        TargetTriple::from_str("EVM"),
        Err("Unsupported target triple: `EVM`".to_string())
    );
}

#[test]
fn platform_names_and_parsing() {
    assert_eq!(Platform::X86.to_string(), "X86");
    assert_eq!(Platform::AArch64.to_string(), "AArch64");
    assert_eq!(Platform::from_str("EraVM"), Ok(Platform::EraVM));
    assert_eq!(Platform::from_str("EVM"), Ok(Platform::EVM));
    assert_eq!(
        Platform::from_str("X86"),
        Err("Unsupported platform: `X86`".to_string())
    );
}

#[test]
fn sanitizer_and_ccache_names() {
    assert_eq!(Sanitizer::AddressUndefined.to_string(), "Address;Undefined");
    assert_eq!(
        Sanitizer::from_str("MemoryWithOrigins"),
        Ok(Sanitizer::MemoryWithOrigins)
    );
    assert_eq!(
        Sanitizer::from_str("Leak"),
        Err("Unsupported sanitizer: `Leak`".to_string())
    );
    assert_eq!(CcacheVariant::from_str("sccache"), Ok(CcacheVariant::Sccache));
    assert_eq!(CcacheVariant::Ccache.to_string(), "ccache");
}

#[test]
fn arch_names_and_triples() {
    assert_eq!(Arch::X86_64.to_string(), "x86_64");
    assert_eq!(Arch::AArch64.musl_triple_of(), "aarch64-pc-linux-musl");
    assert_eq!(Arch::X86_64.native_platform(), Platform::X86);
}

#[test]
fn targets_always_include_eravm_and_evm() {
    assert_eq!(
        parse_targets(&Vec::new()),
        Ok(vec![Platform::EraVM, Platform::EVM])
    );
    assert_eq!(
        parse_targets(&strings(&["EVM", "EraVM", "EVM"])),
        Ok(vec![Platform::EVM, Platform::EraVM])
    );
}

#[test]
fn targets_unknown_name_is_refused() {
    assert_eq!(
        parse_targets(&strings(&["EraVM", "RISCV", "Other"])),
        Err("Unsupported platform: `RISCV`".to_string())
    );
}

#[test]
fn extra_args_lose_one_leading_backslash() {
    let args = strings(&["\\-DLLVM_FOO='On'", "-DBAR=1", "\\\\x", ""]);
    assert_eq!(
        unescape_extra_args(&args),
        strings(&["-DLLVM_FOO='On'", "-DBAR=1", "\\x", ""])
    );
}

#[test]
fn text_helpers() {
    assert!(str_equal("abc", "abc"));
    assert!(!str_equal("abc", "abd"));
    assert!(!str_equal("ab", "abc"));
    assert_eq!(strip_first("\\a", '\\'), "a");
    assert_eq!(strip_first("a", '\\'), "a");
    assert_eq!(join(&strings(&["X86", "EraVM", "EVM"]), ";"), "X86;EraVM;EVM");
    assert_eq!(join(&Vec::new(), ";"), "");
    assert_eq!(decimal_of(0), "0");
    assert_eq!(decimal_of(7), "7");
    assert_eq!(decimal_of(1204), "1204");
}

#[test]
fn paths_are_pushed_like_unix_paths() {
    assert_eq!(push_path("/home/u", "x"), "/home/u/x");
    assert_eq!(push_path("/home/u/", "x"), "/home/u/x");
    assert_eq!(push_path("", "x"), "x");
    assert_eq!(push_path("/home/u", "/etc"), "/etc");
}

#[test]
fn build_type_names() {
    assert_eq!(BuildType::from_str("Debug"), Ok(BuildType::Debug));
    assert_eq!(BuildType::from_str("Release"), Ok(BuildType::Release));
    assert_eq!(
        BuildType::from_str("release"),
        Err("Unsupported build type: `release`".to_string())
    );
}
