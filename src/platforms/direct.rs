//! The single-stage build used everywhere but on Linux with musl: one
//! configure, one build and install, and on Windows the copy of the static C++
//! runtime into the install tree.

use vstd::prelude::*;
use vstd::string::StringExecFns;

use crate::llvm_path::under;
use crate::llvm_path::LLVMPath;
use crate::llvm_path::DIRECTORY_LLVM_SOURCE;
use crate::llvm_path::DIRECTORY_LLVM_TARGET;
use crate::platforms::platform_names;
use crate::platforms::distinct_platform_names_of;
use crate::platforms::distinct_platforms;
use crate::platforms::shared::cmake_flag;
use crate::platforms::shared::cmake_flag_of;
use crate::platforms::shared::duplicate_libs_opts;
use crate::platforms::shared::macos_build_opts_ignore_dupicate_libs_warnings;
use crate::platforms::shared::on_off;
use crate::platforms::shared::option_flags;
use crate::platforms::shared::option_flags_of;
use crate::platforms::shared::shared_build_opts_werror;
use crate::platforms::BuildOptions;
use crate::platforms::Os;
use crate::step::push_all;
use crate::step::push_one;
use crate::step::push_require;
use crate::step::push_text;
use crate::step::require_tools_v;
use crate::step::run;
use crate::step::run_v;
use crate::step::Step;
use crate::step::StepV;
use crate::text::join;
use crate::text::joined_with;
use crate::text::path_pushed;
use crate::text::push_path;

verus! {

/// The tools that a direct build runs on the system.
pub open spec fn direct_tools(os: Os) -> Seq<Seq<char>> {
    if os == Os::MacOS {
        seq!["cmake"@, "ninja"@]
    } else {
        seq!["cmake"@, "clang"@, "clang++"@, "lld"@, "ninja"@]
    }
}

/// The flags that choose compilers, linker and back ends for the system:
/// on macOS the system compilers with the minimum OS version and, for the
/// Xcode 15 linker, its duplicate-library warnings silenced; elsewhere clang
/// and lld.
pub open spec fn system_opts(os: Os, targets: Seq<char>, xcode_version: Option<u32>) -> Seq<
    Seq<char>,
> {
    if os == Os::MacOS {
        seq![
            cmake_flag("LLVM_TARGETS_TO_BUILD"@, targets),
            "-DCMAKE_OSX_DEPLOYMENT_TARGET='11.0'"@,
        ] + duplicate_libs_opts(xcode_version)
    } else {
        seq![
            "-DCMAKE_C_COMPILER='clang'"@,
            "-DCMAKE_CXX_COMPILER='clang++'"@,
            cmake_flag("LLVM_TARGETS_TO_BUILD"@, targets),
            "-DLLVM_USE_LINKER='lld'"@,
        ]
    }
}

/// The build-system arguments of a direct build.
pub open spec fn direct_cmake_args(
    os: Os,
    o: BuildOptions,
    source: Seq<char>,
    build: Seq<char>,
    target: Seq<char>,
    xcode_version: Option<u32>,
) -> Seq<Seq<char>> {
    seq![
        "-S"@,
        source,
        "-B"@,
        build,
        "-G"@,
        "Ninja"@,
        cmake_flag("CMAKE_INSTALL_PREFIX"@, target),
        cmake_flag("CMAKE_BUILD_TYPE"@, o.build_type.name()),
    ] + system_opts(os, joined_with(platform_names(distinct_platforms(o.targets@)), ";"@), xcode_version) + seq![
        cmake_flag("LLVM_ENABLE_WERROR"@, on_off(os != Os::WindowsGnu)),
    ] + option_flags(o)
}

fn system_opts_of(os: Os, targets: &str, xcode_version: Option<u32>) -> (r: Vec<String>)
    ensures
        r.deep_view() == system_opts(os, targets@, xcode_version),
{
    let mut a: Vec<String> = Vec::new();
    if os == Os::MacOS {
        push_one(&mut a, cmake_flag_of("LLVM_TARGETS_TO_BUILD", targets));
        push_text(&mut a, "-DCMAKE_OSX_DEPLOYMENT_TARGET='11.0'");
        push_all(&mut a, macos_build_opts_ignore_dupicate_libs_warnings(xcode_version));
    } else {
        push_text(&mut a, "-DCMAKE_C_COMPILER='clang'");
        push_text(&mut a, "-DCMAKE_CXX_COMPILER='clang++'");
        push_one(&mut a, cmake_flag_of("LLVM_TARGETS_TO_BUILD", targets));
        push_text(&mut a, "-DLLVM_USE_LINKER='lld'");
    }
    assert(a.deep_view() =~= system_opts(os, targets@, xcode_version));
    a
}

fn direct_cmake_args_of(
    os: Os,
    o: &BuildOptions,
    source: &str,
    build: &str,
    target: &str,
    xcode_version: Option<u32>,
) -> (r: Vec<String>)
    ensures
        r.deep_view() == direct_cmake_args(os, *o, source@, build@, target@, xcode_version),
{
    let targets = join(&distinct_platform_names_of(&o.targets), ";");
    let build_type = o.build_type.to_string();
    let mut a: Vec<String> = Vec::new();
    push_text(&mut a, "-S");
    push_text(&mut a, source);
    push_text(&mut a, "-B");
    push_text(&mut a, build);
    push_text(&mut a, "-G");
    push_text(&mut a, "Ninja");
    push_one(&mut a, cmake_flag_of("CMAKE_INSTALL_PREFIX", target));
    push_one(&mut a, cmake_flag_of("CMAKE_BUILD_TYPE", build_type.as_str()));
    push_all(&mut a, system_opts_of(os, targets.as_str(), xcode_version));
    push_all(&mut a, shared_build_opts_werror(os == Os::WindowsGnu));
    push_all(&mut a, option_flags_of(o));
    assert(a.deep_view() =~= direct_cmake_args(os, *o, source@, build@, target@, xcode_version));
    a
}

/// A direct build in the working directory `cwd`: check for the tools,
/// configure, build and install, then copy `runtime_archive`, where one is
/// given, to `lib/libstdc++.a` of the install tree.
pub open spec fn direct_plan(
    os: Os,
    cwd: Seq<char>,
    o: BuildOptions,
    xcode_version: Option<u32>,
    runtime_archive: Option<Seq<char>>,
) -> Seq<StepV> {
    let build = under(cwd, DIRECTORY_LLVM_TARGET@, "build-final"@);
    let target = under(cwd, DIRECTORY_LLVM_TARGET@, "target-final"@);
    require_tools_v(direct_tools(os)) + seq![
        run_v(
            "cmake"@,
            direct_cmake_args(
                os,
                o,
                under(cwd, DIRECTORY_LLVM_SOURCE@, "llvm"@),
                build,
                target,
                xcode_version,
            ),
            None,
            "LLVM building cmake"@,
        ),
        run_v("ninja"@, seq!["-C"@, build, "install"@], None, "Running ninja install"@),
    ] + match runtime_archive {
        Some(a) => seq![
            StepV::CopyFile {
                from: a,
                to: path_pushed(target, "./lib/libstdc++.a"@),
                only_if_present: false,
            },
        ],
        None => Seq::empty(),
    }
}

/// A direct build (see `direct_plan`).
pub fn build(
    os: Os,
    cwd: &str,
    options: &BuildOptions,
    xcode_version: Option<u32>,
    runtime_archive: Option<&str>,
) -> (r: Vec<Step>)
    ensures
        r.deep_view() == direct_plan(
            os,
            cwd@,
            *options,
            xcode_version,
            match runtime_archive {
                Some(a) => Some(a@),
                None => None,
            },
        ),
{
    let llvm_module_llvm = LLVMPath::llvm_module_llvm(cwd);
    let llvm_build_final = LLVMPath::llvm_build_final(cwd);
    let llvm_target_final = LLVMPath::llvm_target_final(cwd);
    let mut steps: Vec<Step> = Vec::new();
    if os == Os::MacOS {
        push_require(&mut steps, "cmake");
        push_require(&mut steps, "ninja");
    } else {
        push_require(&mut steps, "cmake");
        push_require(&mut steps, "clang");
        push_require(&mut steps, "clang++");
        push_require(&mut steps, "lld");
        push_require(&mut steps, "ninja");
    }
    assert(steps.deep_view() =~= require_tools_v(direct_tools(os)));
    let args = direct_cmake_args_of(
        os,
        options,
        llvm_module_llvm.as_str(),
        llvm_build_final.as_str(),
        llvm_target_final.as_str(),
        xcode_version,
    );
    push_one(&mut steps, run("cmake", args, None, "LLVM building cmake"));
    let mut ninja: Vec<String> = Vec::new();
    push_text(&mut ninja, "-C");
    push_text(&mut ninja, llvm_build_final.as_str());
    push_text(&mut ninja, "install");
    assert(ninja.deep_view() =~= seq!["-C"@, llvm_build_final@, "install"@]);
    push_one(&mut steps, run("ninja", ninja, None, "Running ninja install"));
    match runtime_archive {
        Some(a) => {
            push_one(
                &mut steps,
                Step::CopyFile {
                    from: String::from_str(a),
                    to: push_path(llvm_target_final.as_str(), "./lib/libstdc++.a"),
                    only_if_present: false,
                },
            );
        },
        None => {},
    }
    assert(steps.deep_view() =~= direct_plan(
        os,
        cwd@,
        *options,
        xcode_version,
        match runtime_archive {
            Some(a) => Some(a@),
            None => None,
        },
    ));
    steps
}

} // verus!
