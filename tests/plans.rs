use compiler_llvm_builder::platforms::shared::build_musl;
use compiler_llvm_builder::platforms::shared::HeaderLayout;
use compiler_llvm_builder::platforms::Arch;
use compiler_llvm_builder::platforms::BuildOptions;
use compiler_llvm_builder::platforms::Os;
use compiler_llvm_builder::step::Step;
use compiler_llvm_builder::target_env::TargetEnv;
use compiler_llvm_builder::utils::download_musl;
use compiler_llvm_builder::utils::parse_xcode_version;
use compiler_llvm_builder::utils::xcode_version_from_capture;
use compiler_llvm_builder::utils::XcodeVersionError;
use compiler_llvm_builder::build;
use compiler_llvm_builder::build_with_jobs;
use compiler_llvm_builder::checkout;
use compiler_llvm_builder::clean;
use compiler_llvm_builder::clone;
use compiler_llvm_builder::clone_host;
use compiler_llvm_builder::BuildError;
use compiler_llvm_builder::BuildType;
use compiler_llvm_builder::HostFacts;
use compiler_llvm_builder::Lock;
use compiler_llvm_builder::Platform;

fn strings(items: &[&str]) -> Vec<String> {
    items.iter().map(|s| s.to_string()).collect()
}

fn git(args: &[&str], dir: Option<&str>, description: &str) -> Step {
    Step::Run {
        program: "git".to_string(),
        args: strings(args),
        dir: dir.map(|d| d.to_string()),
        description: description.to_string(),
    }
}

fn lock(reference: Option<&str>) -> Lock {
    Lock {
        url: "https://github.com/matter-labs/era-compiler-llvm".to_string(),
        branch: "v1.4.2".to_string(),
        reference: reference.map(|r| r.to_string()),
    }
}

fn options() -> BuildOptions {
    BuildOptions {
        build_type: BuildType::Release,
        targets: vec![Platform::EraVM, Platform::EVM],
        default_target: None,
        enable_rtti: false,
        enable_tests: false,
        enable_coverage: false,
        extra_args: strings(&["-DEXTRA=1"]),
        ccache_variant: None,
        enable_assertions: true,
        sanitizer: None,
        enable_valgrind: false,
        valgrind_options: Vec::new(),
    }
}

fn layout() -> HeaderLayout {
    HeaderLayout {
        system_root: "/sys/h/".to_string(),
        kernel: "kern".to_string(),
        generic: "gen".to_string(),
        arch_dir: "arch".to_string(),
        prefix_dir: "hdr".to_string(),
    }
}

fn facts() -> HostFacts {
    HostFacts {
        musl_source_exists: false,
        xcode_version: None,
        libstdcpp_source: None,
        header_layout: layout(),
    }
}

fn already_cloned() -> Step {
    Step::RequireAbsent {
        path: "./llvm/".to_string(),
        message: "The repository is already cloned at \"./llvm/\". Use `checkout` instead".to_string(),
    }
}

fn run_args(step: &Step) -> Vec<String> {
    match step {
        Step::Run { args, .. } => args.clone(),
        other => panic!("not a run: {other:?}"),
    }
}

#[test]
fn clone_shallow_branch_without_commit() {
    let steps = clone(&lock(None), false, TargetEnv::GNU, Some(Os::Linux), false);
    assert_eq!(
        steps,
        vec![
            Step::RequireTool { name: "git".to_string() },
            already_cloned(),
            git(
                &[
                    "clone",
                    "--branch",
                    "v1.4.2",
                    "--depth",
                    "1",
                    "https://github.com/matter-labs/era-compiler-llvm",
                    "./llvm/",
                ],
                None,
                "LLVM repository cloning",
            ),
        ]
    );
}

#[test]
fn clone_deep_with_commit_checks_it_out_last() {
    let steps = clone(&lock(Some("12345abcd")), true, TargetEnv::GNU, Some(Os::MacOS), false);
    assert_eq!(steps.len(), 4);
    assert_eq!(
        run_args(&steps[2]),
        strings(&[
            "clone",
            "--branch",
            "v1.4.2",
            "https://github.com/matter-labs/era-compiler-llvm",
            "./llvm/",
        ])
    );
    assert_eq!(
        steps[3],
        git(&["checkout", "12345abcd"], Some("./llvm/"), "LLVM repository commit checking out")
    );
}

#[test]
fn clone_twice_is_refused() {
    let steps = clone(&lock(None), false, TargetEnv::GNU, Some(Os::Linux), false);
    let refusal = steps.iter().position(|s| *s == already_cloned()).unwrap();
    assert_eq!(refusal, 1);
    assert_eq!(run_args(&steps[refusal + 1]).last().unwrap(), "./llvm/");
}

#[test]
fn clone_for_musl_on_linux_clones_host_sources_first() {
    let steps = clone(&lock(None), false, TargetEnv::MUSL, Some(Os::Linux), false);
    assert_eq!(steps.len(), 4);
    assert_eq!(
        steps[1],
        git(
            &[
                "clone",
                "--depth",
                "1",
                "--branch",
                "llvmorg-17.0.6",
                "https://github.com/llvm/llvm-project",
                "./llvm-host/",
            ],
            None,
            "LLVM host repository cloning",
        )
    );
    assert_eq!(steps[2], already_cloned());
    let again = clone(&lock(None), false, TargetEnv::MUSL, Some(Os::Linux), true);
    assert_eq!(again.len(), 3);
    assert!(clone_host(true).is_empty());
    let on_mac = clone(&lock(None), false, TargetEnv::MUSL, Some(Os::MacOS), false);
    assert_eq!(on_mac.len(), 3);
    let unknown = clone(&lock(None), false, TargetEnv::MUSL, None, false);
    assert_eq!(unknown.len(), 3);
}

#[test]
fn checkout_forced_with_commit() {
    let steps = checkout(&lock(Some("abc")), true);
    assert_eq!(
        steps,
        vec![
            git(&["fetch", "--all", "--tags"], Some("./llvm/"), "LLVM repository data fetching"),
            git(&["clean", "-d", "-x", "--force"], Some("./llvm/"), "LLVM repository cleaning"),
            git(&["checkout", "--force", "v1.4.2"], Some("./llvm/"), "LLVM repository data pulling"),
            git(&["checkout", "--force", "abc"], Some("./llvm/"), "LLVM repository checking out"),
        ]
    );
}

#[test]
fn checkout_plain_branch() {
    let steps = checkout(&lock(None), false);
    assert_eq!(steps.len(), 2);
    let with_commit = checkout(&lock(Some("abc")), false);
    assert_eq!(
        with_commit[2],
        git(&["checkout", "abc"], Some("./llvm/"), "LLVM repository checking out")
    );
}

#[test]
fn clean_removes_build_root() {
    assert_eq!(
        clean(),
        vec![Step::RemoveDir {
            path: "./target-llvm/".to_string(),
            description: "Unable to remove target LLVM directory".to_string(),
        }]
    );
}

#[test]
fn build_refuses_unsupported_hosts() {
    let o = options();
    let f = facts();
    assert_eq!(
        build(None, Some(Os::Linux), TargetEnv::GNU, "/w", &o, &f),
        Err(BuildError::UnsupportedArchitecture)
    );
    assert_eq!(
        build(Some(Arch::AArch64), Some(Os::WindowsGnu), TargetEnv::GNU, "/w", &o, &f),
        Err(BuildError::UnsupportedOs { arch: Arch::AArch64 })
    );
    assert_eq!(
        BuildError::UnsupportedOs { arch: Arch::AArch64 }.message(),
        "Unsupported target OS for aarch64"
    );
    assert_eq!(
        build(Some(Arch::X86_64), Some(Os::WindowsGnu), TargetEnv::GNU, "/w", &o, &f),
        Err(BuildError::MissingRuntimeArchive)
    );
    assert_eq!(
        BuildError::UnsupportedArchitecture.message(),
        "Unsupported target architecture"
    );
}

#[test]
fn build_linux_gnu_direct() {
    let steps = build(Some(Arch::X86_64), Some(Os::Linux), TargetEnv::GNU, "/w", &options(), &facts())
        .unwrap();
    assert_eq!(steps.len(), 8);
    assert_eq!(steps[0], Step::CreateDir { path: "./target-llvm/".to_string() });
    assert_eq!(steps[1], Step::RequireTool { name: "cmake".to_string() });
    let args = run_args(&steps[6]);
    assert_eq!(
        args[..12].to_vec(),
        strings(&[
            "-S",
            "/w/./llvm/llvm",
            "-B",
            "/w/./target-llvm/build-final",
            "-G",
            "Ninja",
            "-DCMAKE_INSTALL_PREFIX='/w/./target-llvm/target-final'",
            "-DCMAKE_BUILD_TYPE='Release'",
            "-DCMAKE_C_COMPILER='clang'",
            "-DCMAKE_CXX_COMPILER='clang++'",
            "-DLLVM_TARGETS_TO_BUILD='EraVM;EVM'",
            "-DLLVM_USE_LINKER='lld'",
        ])
    );
    assert_eq!(args[12], "-DLLVM_ENABLE_WERROR='On'");
    assert_eq!(args[13], "-DLLVM_DEFAULT_TARGET_TRIPLE='eravm'");
    let extra = args.iter().position(|a| a == "-DEXTRA=1").unwrap();
    assert_eq!(args[extra + 1], "-DLLVM_ENABLE_ASSERTIONS='On'");
    assert_eq!(args.len(), 14 + 19 + 4 + 4 + 1 + 1 + 1 + 1);
    assert_eq!(
        run_args(&steps[7]),
        strings(&["-C", "/w/./target-llvm/build-final", "install"])
    );
}

#[test]
fn build_windows_ships_runtime_archive() {
    let f = HostFacts {
        libstdcpp_source: Some("C:/msys64/libstdc++.a".to_string()),
        ..facts()
    };
    let steps = build(Some(Arch::X86_64), Some(Os::WindowsGnu), TargetEnv::GNU, "C:/w", &options(), &f)
        .unwrap();
    assert_eq!(
        steps.last().unwrap(),
        &Step::CopyFile {
            from: "C:/msys64/libstdc++.a".to_string(),
            to: "C:/w/./target-llvm/target-final/./lib/libstdc++.a".to_string(),
            only_if_present: false,
        }
    );
    assert!(run_args(&steps[6]).contains(&"-DLLVM_ENABLE_WERROR='Off'".to_string()));
}

#[test]
fn build_macos_uses_system_compilers() {
    let f = HostFacts { xcode_version: Some(15), ..facts() };
    let steps = build(Some(Arch::AArch64), Some(Os::MacOS), TargetEnv::MUSL, "/w", &options(), &f)
        .unwrap();
    assert_eq!(steps.len(), 5);
    let args = run_args(&steps[3]);
    assert_eq!(args[8], "-DLLVM_TARGETS_TO_BUILD='EraVM;EVM'");
    assert_eq!(args[9], "-DCMAKE_OSX_DEPLOYMENT_TARGET='11.0'");
    assert_eq!(args[10], "-DCMAKE_EXE_LINKER_FLAGS='-Wl,-no_warn_duplicate_libraries'");
}

#[test]
fn build_musl_runs_four_stages_in_order() {
    let steps = build_with_jobs(
        Some(Arch::X86_64),
        Some(Os::Linux),
        TargetEnv::MUSL,
        "/w",
        &options(),
        &facts(),
        8,
    )
    .unwrap();
    let descriptions: Vec<String> = steps
        .iter()
        .filter_map(|s| match s {
            Step::Run { description, .. } => Some(description.clone()),
            _ => None,
        })
        .collect();
    assert_eq!(
        descriptions,
        strings(&[
            "MUSL configuring",
            "MUSL building",
            "MUSL installing",
            "types_header arch signature replacement",
            "CRT building cmake",
            "CRT building ninja",
            "LLVM host building cmake",
            "LLVM host building ninja",
            "LLVM target building cmake",
            "Running ninja install",
        ])
    );
    assert_eq!(steps.len(), 1 + 5 + 2 + 14 + 2 + 3 + 4);
    assert!(descriptions.contains(&"types_header arch signature replacement".to_string()));
    assert_eq!(
        steps[6],
        Step::Download {
            url: "https://git.musl-libc.org/cgit/musl/snapshot/musl-1.2.3.tar.gz".to_string(),
            folder: "./target-llvm/".to_string(),
        }
    );
    let present = HostFacts { musl_source_exists: true, ..facts() };
    let without_download =
        build_with_jobs(Some(Arch::X86_64), Some(Os::Linux), TargetEnv::MUSL, "/w", &options(), &present, 8)
            .unwrap();
    assert_eq!(without_download.len(), steps.len() - 2);
}

#[test]
fn musl_final_stage_uses_host_compilers() {
    let steps = build_with_jobs(
        Some(Arch::X86_64),
        Some(Os::Linux),
        TargetEnv::MUSL,
        "/w",
        &options(),
        &facts(),
        2,
    )
    .unwrap();
    let n = steps.len();
    let args = run_args(&steps[n - 4]);
    assert_eq!(args[10], "-DCMAKE_C_COMPILER='/w/./target-llvm/target-host/bin/clang'");
    assert_eq!(args[11], "-DCMAKE_CXX_COMPILER='/w/./target-llvm/target-host/bin/clang++'");
    assert_eq!(
        steps[n - 1],
        Step::CopyDir {
            from: "/w/./target-llvm/target-host/lib/x86_64-pc-linux-musl/".to_string(),
            to: "/w/./target-llvm/target-final/lib/".to_string(),
            content_only: true,
        }
    );
    let crt = run_args(&steps[22]);
    assert_eq!(crt[11], "-DLLVM_TARGETS_TO_BUILD='X86'");
    assert_eq!(crt[12], "-DLLVM_DEFAULT_TARGET_TRIPLE='x86_64-pc-linux-musl'");
}

#[test]
fn musl_stage_configures_with_prefix_and_jobs() {
    let steps = build_musl(Arch::X86_64, "/b", "/t", 12, &layout());
    assert_eq!(steps.len(), 14);
    assert_eq!(
        steps[2],
        Step::Run {
            program: "../configure".to_string(),
            args: strings(&["--prefix=/t", "--syslibdir=/t/lib/", "--enable-wrapper='clang'"]),
            dir: Some("/b".to_string()),
            description: "MUSL configuring".to_string(),
        }
    );
    assert_eq!(run_args(&steps[3]), strings(&["-j", "12"]));
}

#[test]
fn musl_stage_takes_over_kernel_headers() {
    let steps = build_musl(Arch::X86_64, "/b", "/t", 1, &layout());
    assert_eq!(steps[5], Step::CreateDir { path: "/t/hdr/arch/".to_string() });
    assert_eq!(
        steps[6],
        Step::CopyDir {
            from: "/sys/h/kern".to_string(),
            to: "/t/hdr/".to_string(),
            content_only: false,
        }
    );
    assert_eq!(
        steps[7],
        Step::CopyDir {
            from: "/sys/h/gen".to_string(),
            to: "/t/hdr/arch/".to_string(),
            content_only: true,
        }
    );
    let names = ["byteorder.h", "ptrace.h", "hwcap.h", "sve_context.h", "unistd_64.h"];
    for (k, name) in names.iter().enumerate() {
        assert_eq!(
            steps[8 + k],
            Step::CopyFile {
                from: format!("/sys/h/x86_64-linux-gnu/arch/{name}"),
                to: format!("/t/hdr/arch/{name}"),
                only_if_present: true,
            }
        );
    }
    assert_eq!(
        steps[13],
        Step::Run {
            program: "sed".to_string(),
            args: strings(&["-i", "s/gen/arch/", "/t/hdr/arch/types.h"]),
            dir: None,
            description: "types_header arch signature replacement".to_string(),
        }
    );
}

#[test]
fn musl_download_names_the_snapshot() {
    assert_eq!(
        download_musl("/w", "musl-1.2.3"),
        vec![
            Step::Download {
                url: "https://git.musl-libc.org/cgit/musl/snapshot/musl-1.2.3.tar.gz".to_string(),
                folder: "./target-llvm/".to_string(),
            },
            Step::Unpack {
                archive: "/w/./target-llvm/musl-1.2.3.tar.gz".to_string(),
                into: "./target-llvm/".to_string(),
            },
        ]
    );
}

#[test]
fn xcode_version_read_from_package_info() {
    assert_eq!(parse_xcode_version("version: 15.0.0.0.1.1694021235\n"), Ok(15));
    assert_eq!(
        parse_xcode_version("package-id: x\nversion: 14.3.1.0.1\nvolume: /"),
        Ok(14)
    );
    assert_eq!(parse_xcode_version("no version here"), Err(XcodeVersionError::Unmatched));
    assert_eq!(
        parse_xcode_version("version: 99999999999.1"),
        Err(XcodeVersionError::NotANumber)
    );
}

#[test]
fn xcode_version_from_captured_digits() {
    assert_eq!(xcode_version_from_capture(Some("4294967295".to_string())), Ok(4294967295));
    assert_eq!(
        xcode_version_from_capture(Some("4294967296".to_string())),
        Err(XcodeVersionError::NotANumber)
    );
    assert_eq!(
        xcode_version_from_capture(Some("1a".to_string())),
        Err(XcodeVersionError::NotANumber)
    );
    assert_eq!(xcode_version_from_capture(None), Err(XcodeVersionError::Unmatched));
}

#[test]
fn build_checks_for_the_compiler_cache_first() {
    let mut o = options();
    o.ccache_variant = Some(compiler_llvm_builder::ccache_variant::CcacheVariant::Ccache);
    let steps = build(Some(Arch::X86_64), Some(Os::Linux), TargetEnv::GNU, "/w", &o, &facts()).unwrap();
    assert_eq!(steps[0], Step::RequireTool { name: "ccache".to_string() });
    assert_eq!(steps[1], Step::CreateDir { path: "./target-llvm/".to_string() });
    let args = run_args(&steps[7]);
    assert!(args.contains(&"-DCMAKE_C_COMPILER_LAUNCHER='ccache'".to_string()));
    assert!(args.contains(&"-DCMAKE_CXX_COMPILER_LAUNCHER='ccache'".to_string()));
}

#[test]
fn repeated_targets_are_built_once() {
    let mut o = options();
    o.targets = vec![Platform::EVM, Platform::EraVM, Platform::EVM];
    let steps = build(Some(Arch::X86_64), Some(Os::Linux), TargetEnv::GNU, "/w", &o, &facts()).unwrap();
    assert_eq!(run_args(&steps[6])[10], "-DLLVM_TARGETS_TO_BUILD='EVM;EraVM'");
}
