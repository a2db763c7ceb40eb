//! The build flags that every platform's plan is assembled from.

use vstd::prelude::*;
use vstd::string::StringExecFns;

use crate::ccache_variant::CcacheVariant;
use crate::platforms::Arch;
use crate::platforms::BuildOptions;
use crate::sanitizer::Sanitizer;
use crate::step::push_all;
use crate::step::push_one;
use crate::step::run;
use crate::step::run_v;
use crate::step::Step;
use crate::step::StepV;
use crate::step::push_text;
use crate::target_triple::TargetTriple;
use crate::text::concat3;
use crate::text::decimal;
use crate::text::decimal_of;
use crate::text::join;
use crate::text::joined_with;
use crate::text::path_pushed;
use crate::text::push_path;

verus! {

/// `-D<name>='<value>'`, a cache entry for the build system.
pub open spec fn cmake_flag(name: Seq<char>, value: Seq<char>) -> Seq<char> {
    "-D"@ + name + "='"@ + value + "'"@
}

/// The switch value for a boolean setting.
pub open spec fn on_off(enabled: bool) -> Seq<char> {
    if enabled {
        "On"@
    } else {
        "Off"@
    }
}

/// The flags of every build: project metadata, and no documentation,
/// examples, benchmarks or optional third-party libraries.
pub open spec fn shared_opts() -> Seq<Seq<char>> {
    seq![
        "-DPACKAGE_VENDOR='Matter Labs'"@,
        "-DCMAKE_BUILD_WITH_INSTALL_RPATH=1"@,
        "-DLLVM_BUILD_DOCS='Off'"@,
        "-DLLVM_INCLUDE_DOCS='Off'"@,
        "-DLLVM_INCLUDE_BENCHMARKS='Off'"@,
        "-DLLVM_INCLUDE_EXAMPLES='Off'"@,
        "-DLLVM_ENABLE_DOXYGEN='Off'"@,
        "-DLLVM_ENABLE_SPHINX='Off'"@,
        "-DLLVM_ENABLE_OCAMLDOC='Off'"@,
        "-DLLVM_ENABLE_ZLIB='Off'"@,
        "-DLLVM_ENABLE_ZSTD='Off'"@,
        "-DLLVM_ENABLE_LIBXML2='Off'"@,
        "-DLLVM_ENABLE_BINDINGS='Off'"@,
        "-DLLVM_ENABLE_TERMINFO='Off'"@,
        "-DLLVM_ENABLE_LIBEDIT='Off'"@,
        "-DLLVM_ENABLE_LIBPFM='Off'"@,
        "-DCMAKE_EXPORT_COMPILE_COMMANDS='On'"@,
        "-DPython3_FIND_REGISTRY='LAST'"@,
        "-DBUG_REPORT_URL='https://github.com/matter-labs/era-compiler-llvm/issues/'"@,
    ]
}

/// The flags of every build but the musl ones.
pub open spec fn shared_opts_not_musl() -> Seq<Seq<char>> {
    seq![
        "-DLLVM_OPTIMIZED_TABLEGEN='Off'"@,
        "-DLLVM_BUILD_RUNTIME='Off'"@,
        "-DLLVM_BUILD_RUNTIMES='Off'"@,
        "-DLLVM_INCLUDE_RUNTIMES='Off'"@,
    ]
}

/// The setting `name` with the value `value`, as one flag.
pub fn cmake_flag_of(name: &str, value: &str) -> (r: String)
    ensures
        r@ == cmake_flag(name@, value@),
{
    let s = String::from_str("-D");
    let s = s.concat(name);
    let s = s.concat("='");
    let s = s.concat(value);
    s.concat("'")
}

/// The switch value for a boolean setting.
pub fn on_off_of(enabled: bool) -> (r: &'static str)
    ensures
        r@ == on_off(enabled),
{
    if enabled {
        "On"
    } else {
        "Off"
    }
}

/// The flags of every build.
pub fn shared_build_opts() -> (r: Vec<String>)
    ensures
        r.deep_view() == shared_opts(),
{
    let mut r: Vec<String> = Vec::new();
    push_text(&mut r, "-DPACKAGE_VENDOR='Matter Labs'");
    push_text(&mut r, "-DCMAKE_BUILD_WITH_INSTALL_RPATH=1");
    push_text(&mut r, "-DLLVM_BUILD_DOCS='Off'");
    push_text(&mut r, "-DLLVM_INCLUDE_DOCS='Off'");
    push_text(&mut r, "-DLLVM_INCLUDE_BENCHMARKS='Off'");
    push_text(&mut r, "-DLLVM_INCLUDE_EXAMPLES='Off'");
    push_text(&mut r, "-DLLVM_ENABLE_DOXYGEN='Off'");
    push_text(&mut r, "-DLLVM_ENABLE_SPHINX='Off'");
    push_text(&mut r, "-DLLVM_ENABLE_OCAMLDOC='Off'");
    push_text(&mut r, "-DLLVM_ENABLE_ZLIB='Off'");
    push_text(&mut r, "-DLLVM_ENABLE_ZSTD='Off'");
    push_text(&mut r, "-DLLVM_ENABLE_LIBXML2='Off'");
    push_text(&mut r, "-DLLVM_ENABLE_BINDINGS='Off'");
    push_text(&mut r, "-DLLVM_ENABLE_TERMINFO='Off'");
    push_text(&mut r, "-DLLVM_ENABLE_LIBEDIT='Off'");
    push_text(&mut r, "-DLLVM_ENABLE_LIBPFM='Off'");
    push_text(&mut r, "-DCMAKE_EXPORT_COMPILE_COMMANDS='On'");
    push_text(&mut r, "-DPython3_FIND_REGISTRY='LAST'");
    push_text(&mut r, "-DBUG_REPORT_URL='https://github.com/matter-labs/era-compiler-llvm/issues/'");
    assert(r.deep_view() =~= shared_opts());
    r
}

/// The flags of every build but the musl ones.
pub fn shared_build_opts_not_musl() -> (r: Vec<String>)
    ensures
        r.deep_view() == shared_opts_not_musl(),
{
    let mut r: Vec<String> = Vec::new();
    push_text(&mut r, "-DLLVM_OPTIMIZED_TABLEGEN='Off'");
    push_text(&mut r, "-DLLVM_BUILD_RUNTIME='Off'");
    push_text(&mut r, "-DLLVM_BUILD_RUNTIMES='Off'");
    push_text(&mut r, "-DLLVM_INCLUDE_RUNTIMES='Off'");
    assert(r.deep_view() =~= shared_opts_not_musl());
    r
}

/// The flag that treats warnings as errors, switched off where the toolchain
/// is built for Windows, whose MinGW headers trip it.
pub fn shared_build_opts_werror(for_windows: bool) -> (r: Vec<String>)
    ensures
        r.deep_view() == seq![cmake_flag("LLVM_ENABLE_WERROR"@, on_off(!for_windows))],
{
    let mut r: Vec<String> = Vec::new();
    push_one(&mut r, cmake_flag_of("LLVM_ENABLE_WERROR", on_off_of(!for_windows)));
    r
}

/// The name of the default target triple: the one given, else EraVM.
pub open spec fn default_target_name(target: Option<TargetTriple>) -> Seq<char> {
    match target {
        Some(t) => t.name(),
        None => TargetTriple::EraVM.name(),
    }
}

/// The flag that sets the default target triple.
pub fn shared_build_opts_default_target(target: Option<TargetTriple>) -> (r: Vec<String>)
    ensures
        r.deep_view() == seq![cmake_flag("LLVM_DEFAULT_TARGET_TRIPLE"@, default_target_name(target))],
{
    let name = match target {
        Some(t) => t.to_string(),
        None => TargetTriple::EraVM.to_string(),
    };
    let mut r: Vec<String> = Vec::new();
    push_one(&mut r, cmake_flag_of("LLVM_DEFAULT_TARGET_TRIPLE", name.as_str()));
    r
}

/// The flag that switches assertions on or off.
pub fn shared_build_opts_assertions(enabled: bool) -> (r: Vec<String>)
    ensures
        r.deep_view() == seq![cmake_flag("LLVM_ENABLE_ASSERTIONS"@, on_off(enabled))],
{
    let mut r: Vec<String> = Vec::new();
    push_one(&mut r, cmake_flag_of("LLVM_ENABLE_ASSERTIONS", on_off_of(enabled)));
    r
}

/// The flag that switches run-time type information on or off.
pub fn shared_build_opts_rtti(enabled: bool) -> (r: Vec<String>)
    ensures
        r.deep_view() == seq![cmake_flag("LLVM_ENABLE_RTTI"@, on_off(enabled))],
{
    let mut r: Vec<String> = Vec::new();
    push_one(&mut r, cmake_flag_of("LLVM_ENABLE_RTTI", on_off_of(enabled)));
    r
}

/// The flag that selects a sanitizer, or none without one.
pub open spec fn sanitizer_opts(sanitizer: Option<Sanitizer>) -> Seq<Seq<char>> {
    match sanitizer {
        Some(s) => seq![cmake_flag("LLVM_USE_SANITIZER"@, s.name())],
        None => seq![],
    }
}

/// The flag that selects a sanitizer, or none without one.
pub fn shared_build_opts_sanitizers(sanitizer: Option<Sanitizer>) -> (r: Vec<String>)
    ensures
        r.deep_view() == sanitizer_opts(sanitizer),
{
    let mut r: Vec<String> = Vec::new();
    match sanitizer {
        Some(s) => {
            let name = s.to_string();
            push_one(&mut r, cmake_flag_of("LLVM_USE_SANITIZER", name.as_str()));
        },
        None => {},
    }
    assert(r.deep_view() =~= sanitizer_opts(sanitizer));
    r
}

/// Each option as a `--vg-arg='<option>'` argument of the test runner.
pub open spec fn valgrind_args(options: Seq<Seq<char>>) -> Seq<Seq<char>> {
    options.map_values(|o: Seq<char>| "--vg-arg='"@ + o + "'"@)
}

/// The flag that runs the regression tests under Valgrind with the given
/// options, or none where that is not enabled.
pub open spec fn valgrind_opts(enabled: bool, options: Seq<Seq<char>>) -> Seq<Seq<char>> {
    if enabled {
        seq![
            "-DLLVM_LIT_ARGS='-sv --vg --vg-leak "@ + joined_with(valgrind_args(options), " "@)
                + "'"@,
        ]
    } else {
        seq![]
    }
}

/// The flag that runs the regression tests under Valgrind.
pub fn shared_build_opts_valgrind(enabled: bool, valgrind_options: &Vec<String>) -> (r: Vec<String>)
    ensures
        r.deep_view() == valgrind_opts(enabled, valgrind_options.deep_view()),
{
    let mut r: Vec<String> = Vec::new();
    if !enabled {
        assert(r.deep_view() =~= valgrind_opts(enabled, valgrind_options.deep_view()));
        return r;
    }
    let mut args: Vec<String> = Vec::new();
    let mut i: usize = 0;
    while i < valgrind_options.len()
        invariant
            i <= valgrind_options.len(),
            args.deep_view() == valgrind_args(valgrind_options.deep_view().take(i as int)),
        decreases valgrind_options.len() - i,
    {
        push_one(&mut args, concat3("--vg-arg='", valgrind_options[i].as_str(), "'"));
        assert(valgrind_args(valgrind_options.deep_view().take(i + 1)) =~= valgrind_args(
            valgrind_options.deep_view().take(i as int),
        ).push("--vg-arg='"@ + valgrind_options.deep_view()[i as int] + "'"@));
        i = i + 1;
    }
    assert(valgrind_options.deep_view().take(i as int) =~= valgrind_options.deep_view());
    let joined = join(&args, " ");
    push_one(&mut r, concat3("-DLLVM_LIT_ARGS='-sv --vg --vg-leak ", joined.as_str(), "'"));
    assert(r.deep_view() =~= valgrind_opts(enabled, valgrind_options.deep_view()));
    r
}

/// The flags that build the tests and the utilities they need, or leave them out.
pub open spec fn tests_opts(enabled: bool) -> Seq<Seq<char>> {
    seq![
        cmake_flag("LLVM_BUILD_UTILS"@, on_off(enabled)),
        cmake_flag("LLVM_BUILD_TESTS"@, on_off(enabled)),
        cmake_flag("LLVM_INCLUDE_UTILS"@, on_off(enabled)),
        cmake_flag("LLVM_INCLUDE_TESTS"@, on_off(enabled)),
    ]
}

/// The flags that build the tests and the utilities they need, or leave them out.
pub fn shared_build_opts_tests(enabled: bool) -> (r: Vec<String>)
    ensures
        r.deep_view() == tests_opts(enabled),
{
    let value = on_off_of(enabled);
    let mut r: Vec<String> = Vec::new();
    push_one(&mut r, cmake_flag_of("LLVM_BUILD_UTILS", value));
    push_one(&mut r, cmake_flag_of("LLVM_BUILD_TESTS", value));
    push_one(&mut r, cmake_flag_of("LLVM_INCLUDE_UTILS", value));
    push_one(&mut r, cmake_flag_of("LLVM_INCLUDE_TESTS", value));
    assert(r.deep_view() =~= tests_opts(enabled));
    r
}

/// The flag that instruments the build for source-based code coverage, or not.
pub fn shared_build_opts_coverage(enabled: bool) -> (r: Vec<String>)
    ensures
        r.deep_view() == seq![cmake_flag("LLVM_BUILD_INSTRUMENTED_COVERAGE"@, on_off(enabled))],
{
    let mut r: Vec<String> = Vec::new();
    push_one(&mut r, cmake_flag_of("LLVM_BUILD_INSTRUMENTED_COVERAGE", on_off_of(enabled)));
    r
}

/// The flags that launch the compilers through a compiler cache, or none.
pub open spec fn ccache_opts(variant: Option<CcacheVariant>) -> Seq<Seq<char>> {
    match variant {
        Some(v) => seq![
            cmake_flag("CMAKE_C_COMPILER_LAUNCHER"@, v.name()),
            cmake_flag("CMAKE_CXX_COMPILER_LAUNCHER"@, v.name()),
        ],
        None => seq![],
    }
}

/// The flags that launch the compilers through a compiler cache, or none.
pub fn shared_build_opts_ccache(ccache_variant: Option<CcacheVariant>) -> (r: Vec<String>)
    ensures
        r.deep_view() == ccache_opts(ccache_variant),
{
    let mut r: Vec<String> = Vec::new();
    match ccache_variant {
        Some(v) => {
            let name = v.to_string();
            push_one(&mut r, cmake_flag_of("CMAKE_C_COMPILER_LAUNCHER", name.as_str()));
            push_one(&mut r, cmake_flag_of("CMAKE_CXX_COMPILER_LAUNCHER", name.as_str()));
        },
        None => {},
    }
    assert(r.deep_view() =~= ccache_opts(ccache_variant));
    r
}

/// The Xcode version assumed where it cannot be found out.
pub const XCODE_MIN_VERSION: u32 = 11;

/// The first Xcode version whose linker warns about duplicate libraries.
pub const XCODE_VERSION_15: u32 = 15;

/// The flags that silence the duplicate-library warnings of the Xcode 15
/// linker; none for older versions. An unknown version counts as the oldest
/// supported one.
pub open spec fn duplicate_libs_opts(xcode_version: Option<u32>) -> Seq<Seq<char>> {
    let version = match xcode_version {
        Some(v) => v,
        None => XCODE_MIN_VERSION,
    };
    if version >= XCODE_VERSION_15 {
        seq![
            cmake_flag("CMAKE_EXE_LINKER_FLAGS"@, "-Wl,-no_warn_duplicate_libraries"@),
            cmake_flag("CMAKE_SHARED_LINKER_FLAGS"@, "-Wl,-no_warn_duplicate_libraries"@),
        ]
    } else {
        seq![]
    }
}

/// The flags that silence the duplicate-library warnings of the Xcode 15 linker.
pub fn macos_build_opts_ignore_dupicate_libs_warnings(xcode_version: Option<u32>) -> (r: Vec<
    String,
>)
    ensures
        r.deep_view() == duplicate_libs_opts(xcode_version),
{
    let version = match xcode_version {
        Some(v) => v,
        None => XCODE_MIN_VERSION,
    };
    let mut r: Vec<String> = Vec::new();
    if version >= XCODE_VERSION_15 {
        push_one(
            &mut r,
            cmake_flag_of("CMAKE_EXE_LINKER_FLAGS", "-Wl,-no_warn_duplicate_libraries"),
        );
        push_one(
            &mut r,
            cmake_flag_of("CMAKE_SHARED_LINKER_FLAGS", "-Wl,-no_warn_duplicate_libraries"),
        );
    }
    assert(r.deep_view() =~= duplicate_libs_opts(xcode_version));
    r
}

/// Copies of the strings, in order.
pub fn clone_strings(v: &Vec<String>) -> (r: Vec<String>)
    ensures
        r.deep_view() == v.deep_view(),
{
    let mut r: Vec<String> = Vec::new();
    let mut i: usize = 0;
    while i < v.len()
        invariant
            i <= v.len(),
            r.deep_view() == v.deep_view().take(i as int),
        decreases v.len() - i,
    {
        push_one(&mut r, v[i].clone());
        assert(v.deep_view().take(i + 1) =~= v.deep_view().take(i as int).push(v[i as int]@));
        i = i + 1;
    }
    assert(v.deep_view().take(i as int) =~= v.deep_view());
    r
}

/// The flags that a final toolchain build takes from the options, in the
/// order the build system reads them: the default target, the shared flags,
/// tests, coverage, RTTI and Valgrind, then the extra flags, which can
/// override all of these, then the compiler cache, assertions and sanitizer.
pub open spec fn option_flags(o: BuildOptions) -> Seq<Seq<char>> {
    seq![cmake_flag("LLVM_DEFAULT_TARGET_TRIPLE"@, default_target_name(o.default_target))]
        + shared_opts() + shared_opts_not_musl() + tests_opts(o.enable_tests)
        + seq![cmake_flag("LLVM_BUILD_INSTRUMENTED_COVERAGE"@, on_off(o.enable_coverage))]
        + seq![cmake_flag("LLVM_ENABLE_RTTI"@, on_off(o.enable_rtti))]
        + valgrind_opts(o.enable_valgrind, o.valgrind_options.deep_view())
        + o.extra_args.deep_view()
        + ccache_opts(o.ccache_variant)
        + seq![cmake_flag("LLVM_ENABLE_ASSERTIONS"@, on_off(o.enable_assertions))]
        + sanitizer_opts(o.sanitizer)
}

/// The flags that a final toolchain build takes from the options (see `option_flags`).
pub fn option_flags_of(o: &BuildOptions) -> (r: Vec<String>)
    ensures
        r.deep_view() == option_flags(*o),
{
    let mut a = shared_build_opts_default_target(o.default_target);
    push_all(&mut a, shared_build_opts());
    push_all(&mut a, shared_build_opts_not_musl());
    push_all(&mut a, shared_build_opts_tests(o.enable_tests));
    push_all(&mut a, shared_build_opts_coverage(o.enable_coverage));
    push_all(&mut a, shared_build_opts_rtti(o.enable_rtti));
    push_all(&mut a, shared_build_opts_valgrind(o.enable_valgrind, &o.valgrind_options));
    push_all(&mut a, clone_strings(&o.extra_args));
    push_all(&mut a, shared_build_opts_ccache(o.ccache_variant));
    push_all(&mut a, shared_build_opts_assertions(o.enable_assertions));
    push_all(&mut a, shared_build_opts_sanitizers(o.sanitizer));
    a
}

/// Where a Linux system keeps the C headers that the musl install borrows,
/// and what the install calls them. The driver describes the host's layout.
#[derive(Debug, Clone, PartialEq, Eq)]
pub struct HeaderLayout {
    /// The system's directory of C headers.
    pub system_root: String,
    /// The directory of the kernel's own headers, within `system_root`.
    pub kernel: String,
    /// The directory of the architecture-independent low-level headers,
    /// within `system_root`.
    pub generic: String,
    /// The name of a directory of architecture headers.
    pub arch_dir: String,
    /// The name of the header directory of an install prefix.
    pub prefix_dir: String,
}

/// The header directory of the musl install in `target`.
pub open spec fn prefix_headers(target: Seq<char>, l: HeaderLayout) -> Seq<char> {
    path_pushed(target, l.prefix_dir@ + "/"@)
}

/// The architecture header directory of the musl install in `target`.
pub open spec fn prefix_arch_headers(target: Seq<char>, l: HeaderLayout) -> Seq<char> {
    path_pushed(prefix_headers(target, l), l.arch_dir@ + "/"@)
}

/// The system's directory of headers proper to the architecture `arch`.
pub open spec fn system_arch_headers(arch: Arch, l: HeaderLayout) -> Seq<char> {
    path_pushed(path_pushed(l.system_root@, arch.name() + "-linux-gnu"@), l.arch_dir@)
}

/// The architecture headers that the install takes over from the system
/// where the system has them.
pub open spec fn arch_header_files() -> Seq<Seq<char>> {
    seq!["byteorder.h"@, "ptrace.h"@, "hwcap.h"@, "sve_context.h"@, "unistd_64.h"@]
}

/// The copy of one architecture header into the install, where the system has it.
pub open spec fn arch_header_copy(arch: Arch, target: Seq<char>, l: HeaderLayout, f: Seq<char>) -> StepV {
    StepV::CopyFile {
        from: path_pushed(system_arch_headers(arch, l), f),
        to: path_pushed(prefix_arch_headers(target, l), f),
        only_if_present: true,
    }
}

/// Giving the musl install in `target` the system's Linux kernel headers:
/// create its architecture header directory; copy the kernel's header
/// directory into its header directory; copy the contents of the generic
/// header directory into its architecture header directory; copy each of the
/// architecture's own headers over them where present; then point
/// `types.h` there at the architecture directory instead of the generic one.
pub open spec fn kernel_headers_plan(arch: Arch, target: Seq<char>, l: HeaderLayout) -> Seq<StepV> {
    let headers = prefix_headers(target, l);
    let arch_headers = prefix_arch_headers(target, l);
    seq![
        StepV::CreateDir { path: arch_headers },
        StepV::CopyDir {
            from: path_pushed(l.system_root@, l.kernel@),
            to: headers,
            content_only: false,
        },
        StepV::CopyDir {
            from: path_pushed(l.system_root@, l.generic@),
            to: arch_headers,
            content_only: true,
        },
    ] + arch_header_files().map_values(|f: Seq<char>| arch_header_copy(arch, target, l, f))
        + seq![
        run_v(
            "sed"@,
            seq![
                "-i"@,
                "s/"@ + l.generic@ + "/"@ + l.arch_dir@ + "/"@,
                path_pushed(arch_headers, "types.h"@),
            ],
            None,
            "types_header "@ + l.arch_dir@ + " signature replacement"@,
        ),
    ]
}

/// The musl stage: configure, build with `jobs` parallel jobs and install the
/// C library into `target`, then give the install the Linux kernel headers of
/// the architecture (see `kernel_headers_plan`).
pub open spec fn musl_plan(
    arch: Arch,
    build: Seq<char>,
    target: Seq<char>,
    jobs: nat,
    l: HeaderLayout,
) -> Seq<StepV> {
    seq![
        StepV::CreateDir { path: build },
        StepV::CreateDir { path: target },
        run_v(
            "../configure"@,
            seq!["--prefix="@ + target, "--syslibdir="@ + target + "/lib/"@, "--enable-wrapper='clang'"@],
            Some(build),
            "MUSL configuring"@,
        ),
        run_v("make"@, seq!["-j"@, decimal(jobs)], Some(build), "MUSL building"@),
        run_v("make"@, seq!["install"@], Some(build), "MUSL installing"@),
    ] + kernel_headers_plan(arch, target, l)
}

/// Appends the copy of one architecture header (see `arch_header_copy`).
fn push_arch_header_copy(
    steps: &mut Vec<Step>,
    system_dir: &str,
    prefix_dir: &str,
    name: &str,
)
    ensures
        final(steps).deep_view() == old(steps).deep_view().push(
            StepV::CopyFile {
                from: path_pushed(system_dir@, name@),
                to: path_pushed(prefix_dir@, name@),
                only_if_present: true,
            },
        ),
{
    push_one(
        steps,
        Step::CopyFile {
            from: push_path(system_dir, name),
            to: push_path(prefix_dir, name),
            only_if_present: true,
        },
    );
}

/// Giving the musl install the kernel headers (see `kernel_headers_plan`).
pub fn kernel_headers(arch: Arch, target_directory: &str, layout: &HeaderLayout) -> (r: Vec<Step>)
    ensures
        r.deep_view() == kernel_headers_plan(arch, target_directory@, *layout),
{
    let l = layout;
    let headers = push_path(target_directory, l.prefix_dir.clone().concat("/").as_str());
    let arch_headers = push_path(headers.as_str(), l.arch_dir.clone().concat("/").as_str());
    let system_arch_root = push_path(
        l.system_root.as_str(),
        arch.to_string().concat("-linux-gnu").as_str(),
    );
    let system_arch = push_path(system_arch_root.as_str(), l.arch_dir.as_str());
    let mut steps: Vec<Step> = Vec::new();
    push_one(&mut steps, Step::CreateDir { path: arch_headers.clone() });
    push_one(
        &mut steps,
        Step::CopyDir {
            from: push_path(l.system_root.as_str(), l.kernel.as_str()),
            to: headers.clone(),
            content_only: false,
        },
    );
    push_one(
        &mut steps,
        Step::CopyDir {
            from: push_path(l.system_root.as_str(), l.generic.as_str()),
            to: arch_headers.clone(),
            content_only: true,
        },
    );
    let ghost before = steps.deep_view();
    push_arch_header_copy(&mut steps, system_arch.as_str(), arch_headers.as_str(), "byteorder.h");
    push_arch_header_copy(&mut steps, system_arch.as_str(), arch_headers.as_str(), "ptrace.h");
    push_arch_header_copy(&mut steps, system_arch.as_str(), arch_headers.as_str(), "hwcap.h");
    push_arch_header_copy(&mut steps, system_arch.as_str(), arch_headers.as_str(), "sve_context.h");
    push_arch_header_copy(&mut steps, system_arch.as_str(), arch_headers.as_str(), "unistd_64.h");
    assert(steps.deep_view() =~= before + arch_header_files().map_values(
        |f: Seq<char>| arch_header_copy(arch, target_directory@, *layout, f),
    ));
    let mut sed: Vec<String> = Vec::new();
    push_text(&mut sed, "-i");
    push_one(&mut sed, concat3("s/", l.generic.as_str(), "/").concat(l.arch_dir.as_str()).concat("/"));
    push_one(&mut sed, push_path(arch_headers.as_str(), "types.h"));
    assert(sed.deep_view() =~= seq![
        "-i"@,
        "s/"@ + l.generic@ + "/"@ + l.arch_dir@ + "/"@,
        path_pushed(arch_headers@, "types.h"@),
    ]);
    let description = concat3("types_header ", l.arch_dir.as_str(), " signature replacement");
    push_one(&mut steps, run("sed", sed, None, description.as_str()));
    assert(steps.deep_view() =~= kernel_headers_plan(arch, target_directory@, *layout));
    steps
}

/// The musl stage (see `musl_plan`).
pub fn build_musl(
    arch: Arch,
    build_directory: &str,
    target_directory: &str,
    jobs: usize,
    layout: &HeaderLayout,
) -> (r: Vec<Step>)
    ensures
        r.deep_view() == musl_plan(arch, build_directory@, target_directory@, jobs as nat, *layout),
{
    let mut steps: Vec<Step> = Vec::new();
    push_one(&mut steps, Step::CreateDir { path: String::from_str(build_directory) });
    push_one(&mut steps, Step::CreateDir { path: String::from_str(target_directory) });
    let mut configure: Vec<String> = Vec::new();
    push_one(&mut configure, String::from_str("--prefix=").concat(target_directory));
    push_one(
        &mut configure,
        concat3("--syslibdir=", target_directory, "/lib/"),
    );
    push_text(&mut configure, "--enable-wrapper='clang'");
    assert(configure.deep_view() =~= seq![
        "--prefix="@ + target_directory@,
        "--syslibdir="@ + target_directory@ + "/lib/"@,
        "--enable-wrapper='clang'"@,
    ]);
    push_one(
        &mut steps,
        run("../configure", configure, Some(String::from_str(build_directory)), "MUSL configuring"),
    );
    let mut make: Vec<String> = Vec::new();
    push_text(&mut make, "-j");
    push_one(&mut make, decimal_of(jobs));
    assert(make.deep_view() =~= seq!["-j"@, decimal(jobs as nat)]);
    push_one(&mut steps, run("make", make, Some(String::from_str(build_directory)), "MUSL building"));
    let mut install: Vec<String> = Vec::new();
    push_text(&mut install, "install");
    assert(install.deep_view() =~= seq!["install"@]);
    push_one(
        &mut steps,
        run("make", install, Some(String::from_str(build_directory)), "MUSL installing"),
    );
    push_all(&mut steps, kernel_headers(arch, target_directory, layout));
    steps
}

} // verus!
