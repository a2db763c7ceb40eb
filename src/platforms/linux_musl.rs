//! The four-stage build of a self-contained toolchain for Linux with the musl
//! C library: the C library, a compiler runtime built with the system
//! compiler, a host toolchain linked against both, and the final toolchain
//! compiled by the host toolchain.

use vstd::prelude::*;
use vstd::string::StringExecFns;

use crate::llvm_path::under;
use crate::llvm_path::LLVMPath;
use crate::llvm_path::DIRECTORY_LLVM_HOST_SOURCE;
use crate::llvm_path::DIRECTORY_LLVM_SOURCE;
use crate::llvm_path::DIRECTORY_LLVM_TARGET;
use crate::platforms::platform_names;
use crate::platforms::distinct_platform_names_of;
use crate::platforms::distinct_platforms;
use crate::platforms::shared::build_musl;
use crate::platforms::shared::HeaderLayout;
use crate::platforms::shared::ccache_opts;
use crate::platforms::shared::cmake_flag;
use crate::platforms::shared::cmake_flag_of;
use crate::platforms::shared::musl_plan;
use crate::platforms::shared::option_flags;
use crate::platforms::shared::option_flags_of;
use crate::platforms::shared::shared_build_opts;
use crate::platforms::shared::shared_build_opts_ccache;
use crate::platforms::shared::shared_opts;
use crate::platforms::Arch;
use crate::platforms::BuildOptions;
use crate::ccache_variant::CcacheVariant;
use crate::step::push_all;
use crate::step::push_one;
use crate::step::push_require;
use crate::step::push_text;
use crate::step::require_tools_v;
use crate::step::run;
use crate::step::run_v;
use crate::step::Step;
use crate::step::StepV;
use crate::text::join;
use crate::text::joined_with;
use crate::text::path_pushed;
use crate::text::push_path;
use crate::utils::download_musl;
use crate::utils::musl_download_plan;

verus! {

/// The musl release that the toolchain is linked against.
pub const MUSL_NAME: &'static str = "musl-1.2.3";

/// The build-system arguments of the compiler runtime stage.
pub open spec fn crt_cmake_args(
    arch: Arch,
    source: Seq<char>,
    build: Seq<char>,
    target: Seq<char>,
    ccache: Option<CcacheVariant>,
) -> Seq<Seq<char>> {
    seq![
        "-S"@,
        source,
        "-B"@,
        build,
        "-G"@,
        "Ninja"@,
        cmake_flag("CMAKE_INSTALL_PREFIX"@, target),
        "-DCMAKE_BUILD_TYPE='Release'"@,
        "-DCMAKE_C_COMPILER='clang'"@,
        "-DCMAKE_CXX_COMPILER='clang++'"@,
        "-DLLVM_ENABLE_PROJECTS='compiler-rt'"@,
        cmake_flag("LLVM_TARGETS_TO_BUILD"@, arch.native().name()),
        cmake_flag("LLVM_DEFAULT_TARGET_TRIPLE"@, arch.musl_triple()),
        "-DLLVM_BUILD_TESTS='Off'"@,
        "-DLLVM_BUILD_RUNTIMES='Off'"@,
        "-DLLVM_BUILD_UTILS='Off'"@,
        "-DLLVM_INCLUDE_TESTS='Off'"@,
        "-DLLVM_INCLUDE_RUNTIMES='Off'"@,
        "-DLLVM_INCLUDE_UTILS='Off'"@,
        cmake_flag("COMPILER_RT_DEFAULT_TARGET_ARCH"@, arch.name()),
        "-DCOMPILER_RT_BUILD_CRT='On'"@,
        "-DCOMPILER_RT_BUILD_SANITIZERS='Off'"@,
        "-DCOMPILER_RT_BUILD_XRAY='Off'"@,
        "-DCOMPILER_RT_BUILD_LIBFUZZER='Off'"@,
        "-DCOMPILER_RT_BUILD_PROFILE='Off'"@,
        "-DCOMPILER_RT_BUILD_MEMPROF='Off'"@,
        "-DCOMPILER_RT_BUILD_ORC='Off'"@,
    ] + shared_opts() + ccache_opts(ccache)
}

fn crt_cmake_args_of(
    arch: Arch,
    source: &str,
    build: &str,
    target: &str,
    ccache: Option<CcacheVariant>,
) -> (r: Vec<String>)
    ensures
        r.deep_view() == crt_cmake_args(arch, source@, build@, target@, ccache),
{
    let native = arch.native_platform().to_string();
    let triple = arch.musl_triple_of();
    let arch_name = arch.to_string();
    let mut a: Vec<String> = Vec::new();
    push_text(&mut a, "-S");
    push_one(&mut a, String::from_str(source));
    push_text(&mut a, "-B");
    push_one(&mut a, String::from_str(build));
    push_text(&mut a, "-G");
    push_text(&mut a, "Ninja");
    push_one(&mut a, cmake_flag_of("CMAKE_INSTALL_PREFIX", target));
    push_text(&mut a, "-DCMAKE_BUILD_TYPE='Release'");
    push_text(&mut a, "-DCMAKE_C_COMPILER='clang'");
    push_text(&mut a, "-DCMAKE_CXX_COMPILER='clang++'");
    push_text(&mut a, "-DLLVM_ENABLE_PROJECTS='compiler-rt'");
    push_one(&mut a, cmake_flag_of("LLVM_TARGETS_TO_BUILD", native.as_str()));
    push_one(&mut a, cmake_flag_of("LLVM_DEFAULT_TARGET_TRIPLE", triple.as_str()));
    push_text(&mut a, "-DLLVM_BUILD_TESTS='Off'");
    push_text(&mut a, "-DLLVM_BUILD_RUNTIMES='Off'");
    push_text(&mut a, "-DLLVM_BUILD_UTILS='Off'");
    push_text(&mut a, "-DLLVM_INCLUDE_TESTS='Off'");
    push_text(&mut a, "-DLLVM_INCLUDE_RUNTIMES='Off'");
    push_text(&mut a, "-DLLVM_INCLUDE_UTILS='Off'");
    push_one(&mut a, cmake_flag_of("COMPILER_RT_DEFAULT_TARGET_ARCH", arch_name.as_str()));
    push_text(&mut a, "-DCOMPILER_RT_BUILD_CRT='On'");
    push_text(&mut a, "-DCOMPILER_RT_BUILD_SANITIZERS='Off'");
    push_text(&mut a, "-DCOMPILER_RT_BUILD_XRAY='Off'");
    push_text(&mut a, "-DCOMPILER_RT_BUILD_LIBFUZZER='Off'");
    push_text(&mut a, "-DCOMPILER_RT_BUILD_PROFILE='Off'");
    push_text(&mut a, "-DCOMPILER_RT_BUILD_MEMPROF='Off'");
    push_text(&mut a, "-DCOMPILER_RT_BUILD_ORC='Off'");
    push_all(&mut a, shared_build_opts());
    push_all(&mut a, shared_build_opts_ccache(ccache));
    assert(a.deep_view() =~= crt_cmake_args(arch, source@, build@, target@, ccache));
    a
}

/// The compiler runtime stage: configure for the architecture alone with the
/// system compiler, then build and install only the runtime objects.
pub open spec fn crt_plan(
    arch: Arch,
    source: Seq<char>,
    build: Seq<char>,
    target: Seq<char>,
    ccache: Option<CcacheVariant>,
) -> Seq<StepV> {
    seq![
        run_v("cmake"@, crt_cmake_args(arch, source, build, target, ccache), None, "CRT building cmake"@),
        run_v("ninja"@, seq!["-C"@, build, "install-crt"@], None, "CRT building ninja"@),
    ]
}

/// The compiler runtime stage (see `crt_plan`).
pub fn build_crt(
    arch: Arch,
    source_directory: &str,
    build_directory: &str,
    target_directory: &str,
    ccache: Option<CcacheVariant>,
) -> (r: Vec<Step>)
    ensures
        r.deep_view() == crt_plan(arch, source_directory@, build_directory@, target_directory@, ccache),
{
    let mut steps: Vec<Step> = Vec::new();
    let args = crt_cmake_args_of(arch, source_directory, build_directory, target_directory, ccache);
    push_one(&mut steps, run("cmake", args, None, "CRT building cmake"));
    let mut ninja: Vec<String> = Vec::new();
    push_text(&mut ninja, "-C");
    push_text(&mut ninja, build_directory);
    push_text(&mut ninja, "install-crt");
    assert(ninja.deep_view() =~= seq!["-C"@, build_directory@, "install-crt"@]);
    push_one(&mut steps, run("ninja", ninja, None, "CRT building ninja"));
    assert(steps.deep_view() =~= crt_plan(
        arch,
        source_directory@,
        build_directory@,
        target_directory@,
        ccache,
    ));
    steps
}

/// The build-system arguments of the host toolchain stage.
pub open spec fn host_cmake_args(
    arch: Arch,
    source: Seq<char>,
    build: Seq<char>,
    target: Seq<char>,
    musl_target: Seq<char>,
    ccache: Option<CcacheVariant>,
) -> Seq<Seq<char>> {
    seq![
        "-S"@,
        source,
        "-B"@,
        build,
        "-G"@,
        "Ninja"@,
        cmake_flag("DEFAULT_SYSROOT"@, musl_target),
        "-DLINKER_SUPPORTS_COLOR_DIAGNOSTICS=0"@,
        cmake_flag("CMAKE_INSTALL_PREFIX"@, target),
        "-DCMAKE_BUILD_TYPE='Release'"@,
        "-DCMAKE_C_COMPILER='clang'"@,
        "-DCMAKE_CXX_COMPILER='clang++'"@,
        "-DCLANG_DEFAULT_CXX_STDLIB='libc++'"@,
        "-DCLANG_DEFAULT_RTLIB='compiler-rt'"@,
        cmake_flag("LLVM_DEFAULT_TARGET_TRIPLE"@, arch.musl_triple()),
        cmake_flag("LLVM_TARGETS_TO_BUILD"@, arch.native().name()),
        "-DLLVM_BUILD_TESTS='Off'"@,
        "-DLLVM_BUILD_UTILS='Off'"@,
        "-DLLVM_INCLUDE_TESTS='Off'"@,
        "-DLLVM_INCLUDE_UTILS='Off'"@,
        "-DLLVM_ENABLE_PROJECTS='clang;lld'"@,
        "-DLLVM_ENABLE_RUNTIMES='compiler-rt;libcxx;libcxxabi;libunwind'"@,
        "-DLIBCXX_CXX_ABI='libcxxabi'"@,
        "-DLIBCXX_HAS_MUSL_LIBC='On'"@,
        "-DLIBCXX_ENABLE_SHARED='Off'"@,
        "-DLIBCXX_ENABLE_STATIC='On'"@,
        "-DLIBCXX_ENABLE_STATIC_ABI_LIBRARY='On'"@,
        "-DLIBCXXABI_ENABLE_SHARED='Off'"@,
        "-DLIBCXXABI_ENABLE_STATIC='On'"@,
        "-DLIBCXXABI_ENABLE_STATIC_UNWINDER='On'"@,
        "-DLIBCXXABI_USE_LLVM_UNWINDER='On'"@,
        "-DLIBCXXABI_USE_COMPILER_RT='On'"@,
        "-DLIBUNWIND_ENABLE_STATIC='On'"@,
        "-DLIBUNWIND_ENABLE_SHARED='Off'"@,
        "-DCOMPILER_RT_BUILD_CRT='On'"@,
        "-DCOMPILER_RT_BUILD_SANITIZERS='Off'"@,
        "-DCOMPILER_RT_BUILD_XRAY='Off'"@,
        "-DCOMPILER_RT_BUILD_LIBFUZZER='Off'"@,
        "-DCOMPILER_RT_BUILD_PROFILE='Off'"@,
        "-DCOMPILER_RT_BUILD_MEMPROF='Off'"@,
        "-DCOMPILER_RT_BUILD_ORC='Off'"@,
        cmake_flag("COMPILER_RT_DEFAULT_TARGET_ARCH"@, arch.name()),
        "-DCOMPILER_RT_DEFAULT_TARGET_ONLY='On'"@,
    ] + shared_opts() + ccache_opts(ccache)
}

fn host_cmake_args_of(
    arch: Arch,
    source: &str,
    build: &str,
    target: &str,
    musl_target: &str,
    ccache: Option<CcacheVariant>,
) -> (r: Vec<String>)
    ensures
        r.deep_view() == host_cmake_args(arch, source@, build@, target@, musl_target@, ccache),
{
    let native = arch.native_platform().to_string();
    let triple = arch.musl_triple_of();
    let arch_name = arch.to_string();
    let mut a: Vec<String> = Vec::new();
    push_text(&mut a, "-S");
    push_one(&mut a, String::from_str(source));
    push_text(&mut a, "-B");
    push_one(&mut a, String::from_str(build));
    push_text(&mut a, "-G");
    push_text(&mut a, "Ninja");
    push_one(&mut a, cmake_flag_of("DEFAULT_SYSROOT", musl_target));
    push_text(&mut a, "-DLINKER_SUPPORTS_COLOR_DIAGNOSTICS=0");
    push_one(&mut a, cmake_flag_of("CMAKE_INSTALL_PREFIX", target));
    push_text(&mut a, "-DCMAKE_BUILD_TYPE='Release'");
    push_text(&mut a, "-DCMAKE_C_COMPILER='clang'");
    push_text(&mut a, "-DCMAKE_CXX_COMPILER='clang++'");
    push_text(&mut a, "-DCLANG_DEFAULT_CXX_STDLIB='libc++'");
    push_text(&mut a, "-DCLANG_DEFAULT_RTLIB='compiler-rt'");
    push_one(&mut a, cmake_flag_of("LLVM_DEFAULT_TARGET_TRIPLE", triple.as_str()));
    push_one(&mut a, cmake_flag_of("LLVM_TARGETS_TO_BUILD", native.as_str()));
    push_text(&mut a, "-DLLVM_BUILD_TESTS='Off'");
    push_text(&mut a, "-DLLVM_BUILD_UTILS='Off'");
    push_text(&mut a, "-DLLVM_INCLUDE_TESTS='Off'");
    push_text(&mut a, "-DLLVM_INCLUDE_UTILS='Off'");
    push_text(&mut a, "-DLLVM_ENABLE_PROJECTS='clang;lld'");
    push_text(&mut a, "-DLLVM_ENABLE_RUNTIMES='compiler-rt;libcxx;libcxxabi;libunwind'");
    push_text(&mut a, "-DLIBCXX_CXX_ABI='libcxxabi'");
    push_text(&mut a, "-DLIBCXX_HAS_MUSL_LIBC='On'");
    push_text(&mut a, "-DLIBCXX_ENABLE_SHARED='Off'");
    push_text(&mut a, "-DLIBCXX_ENABLE_STATIC='On'");
    push_text(&mut a, "-DLIBCXX_ENABLE_STATIC_ABI_LIBRARY='On'");
    push_text(&mut a, "-DLIBCXXABI_ENABLE_SHARED='Off'");
    push_text(&mut a, "-DLIBCXXABI_ENABLE_STATIC='On'");
    push_text(&mut a, "-DLIBCXXABI_ENABLE_STATIC_UNWINDER='On'");
    push_text(&mut a, "-DLIBCXXABI_USE_LLVM_UNWINDER='On'");
    push_text(&mut a, "-DLIBCXXABI_USE_COMPILER_RT='On'");
    push_text(&mut a, "-DLIBUNWIND_ENABLE_STATIC='On'");
    push_text(&mut a, "-DLIBUNWIND_ENABLE_SHARED='Off'");
    push_text(&mut a, "-DCOMPILER_RT_BUILD_CRT='On'");
    push_text(&mut a, "-DCOMPILER_RT_BUILD_SANITIZERS='Off'");
    push_text(&mut a, "-DCOMPILER_RT_BUILD_XRAY='Off'");
    push_text(&mut a, "-DCOMPILER_RT_BUILD_LIBFUZZER='Off'");
    push_text(&mut a, "-DCOMPILER_RT_BUILD_PROFILE='Off'");
    push_text(&mut a, "-DCOMPILER_RT_BUILD_MEMPROF='Off'");
    push_text(&mut a, "-DCOMPILER_RT_BUILD_ORC='Off'");
    push_one(&mut a, cmake_flag_of("COMPILER_RT_DEFAULT_TARGET_ARCH", arch_name.as_str()));
    push_text(&mut a, "-DCOMPILER_RT_DEFAULT_TARGET_ONLY='On'");
    push_all(&mut a, shared_build_opts());
    push_all(&mut a, shared_build_opts_ccache(ccache));
    assert(a.deep_view() =~= host_cmake_args(arch, source@, build@, target@, musl_target@, ccache));
    a
}

/// The host toolchain stage: configure a statically linked compiler, linker
/// and C++ runtime over the musl sysroot, put the compiler runtime objects
/// into its library tree, then build and install it.
pub open spec fn host_plan(
    arch: Arch,
    source: Seq<char>,
    build: Seq<char>,
    target: Seq<char>,
    musl_target: Seq<char>,
    crt_target: Seq<char>,
    ccache: Option<CcacheVariant>,
) -> Seq<StepV> {
    seq![
        run_v(
            "cmake"@,
            host_cmake_args(arch, source, build, target, musl_target, ccache),
            None,
            "LLVM host building cmake"@,
        ),
        StepV::CopyDir {
            from: path_pushed(crt_target, "lib/"@),
            to: path_pushed(build, "lib/"@),
            content_only: true,
        },
        run_v("ninja"@, seq!["-C"@, build, "install"@], None, "LLVM host building ninja"@),
    ]
}

/// The host toolchain stage (see `host_plan`).
pub fn build_host(
    arch: Arch,
    source_directory: &str,
    build_directory: &str,
    target_directory: &str,
    musl_target_directory: &str,
    crt_target_directory: &str,
    ccache: Option<CcacheVariant>,
) -> (r: Vec<Step>)
    ensures
        r.deep_view() == host_plan(
            arch,
            source_directory@,
            build_directory@,
            target_directory@,
            musl_target_directory@,
            crt_target_directory@,
            ccache,
        ),
{
    let mut steps: Vec<Step> = Vec::new();
    let args = host_cmake_args_of(
        arch,
        source_directory,
        build_directory,
        target_directory,
        musl_target_directory,
        ccache,
    );
    push_one(&mut steps, run("cmake", args, None, "LLVM host building cmake"));
    push_one(
        &mut steps,
        Step::CopyDir {
            from: push_path(crt_target_directory, "lib/"),
            to: push_path(build_directory, "lib/"),
            content_only: true,
        },
    );
    let mut ninja: Vec<String> = Vec::new();
    push_text(&mut ninja, "-C");
    push_text(&mut ninja, build_directory);
    push_text(&mut ninja, "install");
    assert(ninja.deep_view() =~= seq!["-C"@, build_directory@, "install"@]);
    push_one(&mut steps, run("ninja", ninja, None, "LLVM host building ninja"));
    assert(steps.deep_view() =~= host_plan(
        arch,
        source_directory@,
        build_directory@,
        target_directory@,
        musl_target_directory@,
        crt_target_directory@,
        ccache,
    ));
    steps
}

/// The build-system arguments of the final stage, whose compilers are those
/// of the host toolchain.
pub open spec fn final_cmake_args(
    o: BuildOptions,
    source: Seq<char>,
    build: Seq<char>,
    target: Seq<char>,
    host_target: Seq<char>,
) -> Seq<Seq<char>> {
    seq![
        "-S"@,
        source,
        "-B"@,
        build,
        "-G"@,
        "Ninja"@,
        "-DBUILD_SHARED_LIBS='Off'"@,
        "-DLINKER_SUPPORTS_COLOR_DIAGNOSTICS=0"@,
        cmake_flag("CMAKE_INSTALL_PREFIX"@, target),
        cmake_flag("CMAKE_BUILD_TYPE"@, o.build_type.name()),
        cmake_flag("CMAKE_C_COMPILER"@, path_pushed(host_target, "bin/clang"@)),
        cmake_flag("CMAKE_CXX_COMPILER"@, path_pushed(host_target, "bin/clang++"@)),
        "-DCMAKE_FIND_LIBRARY_SUFFIXES='.a'"@,
        "-DCMAKE_BUILD_WITH_INSTALL_RPATH=1"@,
        "-DCMAKE_EXE_LINKER_FLAGS='-fuse-ld=lld -static'"@,
        cmake_flag("LLVM_TARGETS_TO_BUILD"@, joined_with(platform_names(distinct_platforms(o.targets@)), ";"@)),
        "-DLLVM_ENABLE_PROJECTS='llvm;lld'"@,
    ] + option_flags(o)
}

fn final_cmake_args_of(
    o: &BuildOptions,
    source: &str,
    build: &str,
    target: &str,
    host_target: &str,
) -> (r: Vec<String>)
    ensures
        r.deep_view() == final_cmake_args(*o, source@, build@, target@, host_target@),
{
    let build_type = o.build_type.to_string();
    let clang = push_path(host_target, "bin/clang");
    let clang_cxx = push_path(host_target, "bin/clang++");
    let targets = join(&distinct_platform_names_of(&o.targets), ";");
    let mut a: Vec<String> = Vec::new();
    push_text(&mut a, "-S");
    push_one(&mut a, String::from_str(source));
    push_text(&mut a, "-B");
    push_one(&mut a, String::from_str(build));
    push_text(&mut a, "-G");
    push_text(&mut a, "Ninja");
    push_text(&mut a, "-DBUILD_SHARED_LIBS='Off'");
    push_text(&mut a, "-DLINKER_SUPPORTS_COLOR_DIAGNOSTICS=0");
    push_one(&mut a, cmake_flag_of("CMAKE_INSTALL_PREFIX", target));
    push_one(&mut a, cmake_flag_of("CMAKE_BUILD_TYPE", build_type.as_str()));
    push_one(&mut a, cmake_flag_of("CMAKE_C_COMPILER", clang.as_str()));
    push_one(&mut a, cmake_flag_of("CMAKE_CXX_COMPILER", clang_cxx.as_str()));
    push_text(&mut a, "-DCMAKE_FIND_LIBRARY_SUFFIXES='.a'");
    push_text(&mut a, "-DCMAKE_BUILD_WITH_INSTALL_RPATH=1");
    push_text(&mut a, "-DCMAKE_EXE_LINKER_FLAGS='-fuse-ld=lld -static'");
    push_one(&mut a, cmake_flag_of("LLVM_TARGETS_TO_BUILD", targets.as_str()));
    push_text(&mut a, "-DLLVM_ENABLE_PROJECTS='llvm;lld'");
    push_all(&mut a, option_flags_of(o));
    assert(a.deep_view() =~= final_cmake_args(*o, source@, build@, target@, host_target@));
    a
}

/// The final stage: configure the toolchain with the host toolchain's
/// compilers, build and install it, then copy the musl libraries and the host
/// toolchain's runtime libraries into its library tree, so that it stands alone.
pub open spec fn final_plan(
    arch: Arch,
    o: BuildOptions,
    source: Seq<char>,
    build: Seq<char>,
    target: Seq<char>,
    musl_target: Seq<char>,
    host_target: Seq<char>,
) -> Seq<StepV> {
    seq![
        run_v(
            "cmake"@,
            final_cmake_args(o, source, build, target, host_target),
            None,
            "LLVM target building cmake"@,
        ),
        run_v("ninja"@, seq!["-C"@, build, "install"@], None, "Running ninja install"@),
        StepV::CopyDir {
            from: path_pushed(musl_target, "lib/"@),
            to: path_pushed(target, "lib/"@),
            content_only: true,
        },
        StepV::CopyDir {
            from: path_pushed(host_target, "lib/"@ + arch.musl_triple() + "/"@),
            to: path_pushed(target, "lib/"@),
            content_only: true,
        },
    ]
}

/// The final stage (see `final_plan`).
pub fn build_target(
    arch: Arch,
    options: &BuildOptions,
    source_directory: &str,
    build_directory: &str,
    target_directory: &str,
    musl_target_directory: &str,
    host_target_directory: &str,
) -> (r: Vec<Step>)
    ensures
        r.deep_view() == final_plan(
            arch,
            *options,
            source_directory@,
            build_directory@,
            target_directory@,
            musl_target_directory@,
            host_target_directory@,
        ),
{
    let mut steps: Vec<Step> = Vec::new();
    let args = final_cmake_args_of(
        options,
        source_directory,
        build_directory,
        target_directory,
        host_target_directory,
    );
    push_one(&mut steps, run("cmake", args, None, "LLVM target building cmake"));
    let mut ninja: Vec<String> = Vec::new();
    push_text(&mut ninja, "-C");
    push_text(&mut ninja, build_directory);
    push_text(&mut ninja, "install");
    assert(ninja.deep_view() =~= seq!["-C"@, build_directory@, "install"@]);
    push_one(&mut steps, run("ninja", ninja, None, "Running ninja install"));
    let target_lib = push_path(target_directory, "lib/");
    push_one(
        &mut steps,
        Step::CopyDir {
            from: push_path(musl_target_directory, "lib/"),
            to: target_lib.clone(),
            content_only: true,
        },
    );
    let triple = arch.musl_triple_of();
    let host_lib = String::from_str("lib/").concat(triple.as_str()).concat("/");
    push_one(
        &mut steps,
        Step::CopyDir {
            from: push_path(host_target_directory, host_lib.as_str()),
            to: target_lib,
            content_only: true,
        },
    );
    proof {
        reveal_strlit("/");
    }
    assert(steps.deep_view() =~= final_plan(
        arch,
        *options,
        source_directory@,
        build_directory@,
        target_directory@,
        musl_target_directory@,
        host_target_directory@,
    ));
    steps
}

/// The tools that a musl build runs.
pub open spec fn musl_tools() -> Seq<Seq<char>> {
    seq!["cmake"@, "clang"@, "clang++"@, "lld"@, "ninja"@]
}

/// The whole musl build in the working directory `cwd`: check for the tools,
/// fetch the musl sources unless they are there, then the four stages in
/// order, each reading only the install directories of the stages before it.
pub open spec fn musl_pipeline(
    arch: Arch,
    cwd: Seq<char>,
    o: BuildOptions,
    musl_source_exists: bool,
    jobs: nat,
    layout: HeaderLayout,
) -> Seq<StepV> {
    let t = DIRECTORY_LLVM_TARGET@;
    let musl_target = under(cwd, t, "target-musl"@);
    let crt_target = under(cwd, t, "target-crt"@);
    let host_target = under(cwd, t, "target-host"@);
    let host_source = under(cwd, DIRECTORY_LLVM_HOST_SOURCE@, "llvm"@);
    require_tools_v(musl_tools()) + (if musl_source_exists {
        Seq::empty()
    } else {
        musl_download_plan(cwd, MUSL_NAME@)
    }) + musl_plan(
        arch,
        path_pushed(under(cwd, t, MUSL_NAME@), "build"@),
        musl_target,
        jobs,
        layout,
    )
        + crt_plan(arch, host_source, under(cwd, t, "build-crt"@), crt_target, o.ccache_variant)
        + host_plan(
        arch,
        host_source,
        under(cwd, t, "build-host"@),
        host_target,
        musl_target,
        crt_target,
        o.ccache_variant,
    ) + final_plan(
        arch,
        o,
        under(cwd, DIRECTORY_LLVM_SOURCE@, "llvm"@),
        under(cwd, t, "build-final"@),
        under(cwd, t, "target-final"@),
        musl_target,
        host_target,
    )
}

/// The whole musl build (see `musl_pipeline`); `jobs` is the parallelism of
/// the musl build, `layout` the host's C header layout.
pub fn build(
    arch: Arch,
    cwd: &str,
    options: &BuildOptions,
    musl_source_exists: bool,
    jobs: usize,
    layout: &HeaderLayout,
) -> (r: Vec<Step>)
    ensures
        r.deep_view() == musl_pipeline(
            arch,
            cwd@,
            *options,
            musl_source_exists,
            jobs as nat,
            *layout,
        ),
{
    let musl_build = LLVMPath::musl_build(cwd, MUSL_NAME);
    let musl_target = LLVMPath::musl_target(cwd);
    let llvm_module_llvm = LLVMPath::llvm_module_llvm(cwd);
    let llvm_host_module_llvm = LLVMPath::llvm_host_module_llvm(cwd);
    let llvm_build_crt = LLVMPath::llvm_build_crt(cwd);
    let llvm_target_crt = LLVMPath::llvm_target_crt(cwd);
    let llvm_build_host = LLVMPath::llvm_build_host(cwd);
    let llvm_target_host = LLVMPath::llvm_target_host(cwd);
    let llvm_build_final = LLVMPath::llvm_build_final(cwd);
    let llvm_target_final = LLVMPath::llvm_target_final(cwd);

    let mut steps: Vec<Step> = Vec::new();
    push_require(&mut steps, "cmake");
    push_require(&mut steps, "clang");
    push_require(&mut steps, "clang++");
    push_require(&mut steps, "lld");
    push_require(&mut steps, "ninja");
    assert(steps.deep_view() =~= require_tools_v(musl_tools()));
    if !musl_source_exists {
        push_all(&mut steps, download_musl(cwd, MUSL_NAME));
    } else {
        assert(steps.deep_view() =~= steps.deep_view() + Seq::<StepV>::empty());
    }
    push_all(
        &mut steps,
        build_musl(arch, musl_build.as_str(), musl_target.as_str(), jobs, layout),
    );
    push_all(
        &mut steps,
        build_crt(
            arch,
            llvm_host_module_llvm.as_str(),
            llvm_build_crt.as_str(),
            llvm_target_crt.as_str(),
            options.ccache_variant,
        ),
    );
    push_all(
        &mut steps,
        build_host(
            arch,
            llvm_host_module_llvm.as_str(),
            llvm_build_host.as_str(),
            llvm_target_host.as_str(),
            musl_target.as_str(),
            llvm_target_crt.as_str(),
            options.ccache_variant,
        ),
    );
    push_all(
        &mut steps,
        build_target(
            arch,
            options,
            llvm_module_llvm.as_str(),
            llvm_build_final.as_str(),
            llvm_target_final.as_str(),
            musl_target.as_str(),
            llvm_target_host.as_str(),
        ),
    );
    steps
}

} // verus!
