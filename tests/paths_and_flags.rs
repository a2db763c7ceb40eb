use compiler_llvm_builder::ccache_variant::CcacheVariant;
use compiler_llvm_builder::platforms::shared::macos_build_opts_ignore_dupicate_libs_warnings;
use compiler_llvm_builder::platforms::shared::shared_build_opts;
use compiler_llvm_builder::platforms::shared::shared_build_opts_assertions;
use compiler_llvm_builder::platforms::shared::shared_build_opts_ccache;
use compiler_llvm_builder::platforms::shared::shared_build_opts_coverage;
use compiler_llvm_builder::platforms::shared::shared_build_opts_default_target;
use compiler_llvm_builder::platforms::shared::shared_build_opts_not_musl;
use compiler_llvm_builder::platforms::shared::shared_build_opts_rtti;
use compiler_llvm_builder::platforms::shared::shared_build_opts_sanitizers;
use compiler_llvm_builder::platforms::shared::shared_build_opts_tests;
use compiler_llvm_builder::platforms::shared::shared_build_opts_valgrind;
use compiler_llvm_builder::platforms::shared::shared_build_opts_werror;
use compiler_llvm_builder::sanitizer::Sanitizer;
use compiler_llvm_builder::target_triple::TargetTriple;
use compiler_llvm_builder::LLVMPath;

fn strings(items: &[&str]) -> Vec<String> {
    items.iter().map(|s| s.to_string()).collect()
}

#[test]
fn stage_directories_under_build_root() {
    let cwd = "/work";
    assert_eq!(LLVMPath::llvm_build_crt(cwd), "/work/./target-llvm/build-crt");
    assert_eq!(LLVMPath::llvm_build_host(cwd), "/work/./target-llvm/build-host");
    assert_eq!(LLVMPath::llvm_build_final(cwd), "/work/./target-llvm/build-final");
    assert_eq!(LLVMPath::musl_target(cwd), "/work/./target-llvm/target-musl");
    assert_eq!(LLVMPath::llvm_target_crt(cwd), "/work/./target-llvm/target-crt");
    assert_eq!(LLVMPath::llvm_target_host(cwd), "/work/./target-llvm/target-host");
    assert_eq!(LLVMPath::llvm_target_final(cwd), "/work/./target-llvm/target-final");
}

#[test]
fn source_modules_and_musl_directories() {
    assert_eq!(LLVMPath::llvm_module_llvm("/w/"), "/w/./llvm/llvm");
    assert_eq!(LLVMPath::llvm_host_module_llvm("/w"), "/w/./llvm-host/llvm");
    assert_eq!(
        LLVMPath::musl_source("/w", "musl-1.2.3"),
        "/w/./target-llvm/musl-1.2.3"
    );
    assert_eq!(
        LLVMPath::musl_build("/w", "musl-1.2.3"),
        "/w/./target-llvm/musl-1.2.3/build"
    );
}

#[test]
fn shared_tables() {
    let shared = shared_build_opts();
    assert_eq!(shared.len(), 19);
    assert_eq!(shared[0], "-DPACKAGE_VENDOR='Matter Labs'");
    assert_eq!(shared[18], "-DBUG_REPORT_URL='https://github.com/matter-labs/era-compiler-llvm/issues/'");
    assert_eq!(
        shared_build_opts_not_musl(),
        strings(&[
            "-DLLVM_OPTIMIZED_TABLEGEN='Off'",
            "-DLLVM_BUILD_RUNTIME='Off'",
            "-DLLVM_BUILD_RUNTIMES='Off'",
            "-DLLVM_INCLUDE_RUNTIMES='Off'",
        ])
    );
}

#[test]
fn switch_flags() {
    assert_eq!(shared_build_opts_werror(false), strings(&["-DLLVM_ENABLE_WERROR='On'"]));
    assert_eq!(shared_build_opts_werror(true), strings(&["-DLLVM_ENABLE_WERROR='Off'"]));
    assert_eq!(shared_build_opts_assertions(true), strings(&["-DLLVM_ENABLE_ASSERTIONS='On'"]));
    assert_eq!(shared_build_opts_rtti(false), strings(&["-DLLVM_ENABLE_RTTI='Off'"]));
    assert_eq!(
        shared_build_opts_coverage(true),
        strings(&["-DLLVM_BUILD_INSTRUMENTED_COVERAGE='On'"])
    );
    assert_eq!(
        shared_build_opts_tests(true),
        strings(&[
            "-DLLVM_BUILD_UTILS='On'",
            "-DLLVM_BUILD_TESTS='On'",
            "-DLLVM_INCLUDE_UTILS='On'",
            "-DLLVM_INCLUDE_TESTS='On'",
        ])
    );
}

#[test]
fn default_target_flag() {
    assert_eq!(
        shared_build_opts_default_target(None),
        strings(&["-DLLVM_DEFAULT_TARGET_TRIPLE='eravm'"])
    );
    assert_eq!(
        shared_build_opts_default_target(Some(TargetTriple::EVM)),
        strings(&["-DLLVM_DEFAULT_TARGET_TRIPLE='evm'"])
    );
}

#[test]
fn optional_flags() {
    assert!(shared_build_opts_sanitizers(None).is_empty());
    assert_eq!(
        shared_build_opts_sanitizers(Some(Sanitizer::AddressUndefined)),
        strings(&["-DLLVM_USE_SANITIZER='Address;Undefined'"])
    );
    assert!(shared_build_opts_ccache(None).is_empty());
    assert_eq!(
        shared_build_opts_ccache(Some(CcacheVariant::Sccache)),
        strings(&[
            "-DCMAKE_C_COMPILER_LAUNCHER='sccache'",
            "-DCMAKE_CXX_COMPILER_LAUNCHER='sccache'",
        ])
    );
}

#[test]
fn valgrind_flag() {
    assert!(shared_build_opts_valgrind(false, &strings(&["--x"])).is_empty());
    assert_eq!(
        shared_build_opts_valgrind(true, &strings(&["--leak-check=full", "-q"])),
        strings(&["-DLLVM_LIT_ARGS='-sv --vg --vg-leak --vg-arg='--leak-check=full' --vg-arg='-q''"])
    );
    assert_eq!(
        shared_build_opts_valgrind(true, &Vec::new()),
        strings(&["-DLLVM_LIT_ARGS='-sv --vg --vg-leak '"])
    );
}

#[test]
fn duplicate_library_warnings_from_xcode_15() {
    let silenced = strings(&[
        "-DCMAKE_EXE_LINKER_FLAGS='-Wl,-no_warn_duplicate_libraries'",
        "-DCMAKE_SHARED_LINKER_FLAGS='-Wl,-no_warn_duplicate_libraries'",
    ]);
    assert_eq!(macos_build_opts_ignore_dupicate_libs_warnings(Some(15)), silenced);
    assert_eq!(macos_build_opts_ignore_dupicate_libs_warnings(Some(16)), silenced);
    assert!(macos_build_opts_ignore_dupicate_libs_warnings(Some(14)).is_empty());
    assert!(macos_build_opts_ignore_dupicate_libs_warnings(None).is_empty());
}
