//! Planning and flag assembly for building an LLVM-based compiler toolchain.
//!
//! Every operation is computed as a plan: the ordered steps (tool checks,
//! program runs, directory and file copies, downloads) that a driver performs
//! one after another, stopping at the first that fails. What the operation
//! needs to know of the machine (its architecture and system, the working
//! directory, which directories exist) is handed in.

pub mod build_type;
pub mod ccache_variant;
pub mod llvm_path;
pub mod platforms;
pub mod sanitizer;
pub mod step;
pub mod target_env;
pub mod target_triple;
pub mod text;
pub mod utils;

pub use self::build_type::BuildType;
pub use self::llvm_path::LLVMPath;
pub use self::platforms::Platform;

use vstd::prelude::*;
use vstd::string::StringExecFns;

use crate::llvm_path::DIRECTORY_LLVM_HOST_SOURCE;
use crate::llvm_path::DIRECTORY_LLVM_SOURCE;
use crate::llvm_path::DIRECTORY_LLVM_TARGET;
use crate::ccache_variant::CcacheVariant;
use crate::llvm_path::under;
use crate::platforms::direct::direct_cmake_args;
use crate::platforms::direct::direct_plan;
use crate::platforms::shared::cmake_flag;
use crate::platforms::direct::direct_tools;
use crate::platforms::linux_musl::final_cmake_args;
use crate::platforms::linux_musl::musl_tools;
use crate::platforms::shared::HeaderLayout;
use crate::step::require_tools_v;
use crate::utils::musl_download_plan;
use crate::platforms::linux_musl::musl_pipeline;
use crate::platforms::Arch;
use crate::platforms::BuildOptions;
use crate::platforms::Os;
use crate::step::push_all;
use crate::step::push_one;
use crate::step::push_require;
use crate::step::push_text;
use crate::step::run;
use crate::step::run_v;
use crate::step::Step;
use crate::step::StepV;
use crate::target_env::TargetEnv;
use crate::utils::LLVM_HOST_SOURCE_TAG;
use crate::utils::logical_cpus;
use crate::utils::LLVM_HOST_SOURCE_URL;

verus! {

/// The pinned coordinates of the toolchain sources.
#[derive(Debug, Clone, PartialEq, Eq)]
pub struct Lock {
    /// The repository URL.
    pub url: String,
    /// The branch to clone.
    pub branch: String,
    /// The commit to check out, if any; without one the branch tip is used.
    pub reference: Option<String>,
}

/// The plan of a run, with its steps seen through their views.
pub open spec fn plan_view<E>(r: Result<Vec<Step>, E>) -> Result<Seq<StepV>, E> {
    match r {
        Ok(v) => Ok(v.deep_view()),
        Err(e) => Err(e),
    }
}

/// The shallow clone of the upstream release that bootstraps musl builds,
/// or nothing where its directory exists already.
pub open spec fn clone_host_plan(host_source_exists: bool) -> Seq<StepV> {
    if host_source_exists {
        Seq::empty()
    } else {
        seq![
            run_v(
                "git"@,
                seq![
                    "clone"@,
                    "--depth"@,
                    "1"@,
                    "--branch"@,
                    LLVM_HOST_SOURCE_TAG@,
                    LLVM_HOST_SOURCE_URL@,
                    DIRECTORY_LLVM_HOST_SOURCE@,
                ],
                None,
                "LLVM host repository cloning"@,
            ),
        ]
    }
}

/// The clone of the upstream release that bootstraps musl builds (see `clone_host_plan`).
pub fn clone_host(host_source_exists: bool) -> (r: Vec<Step>)
    ensures
        r.deep_view() == clone_host_plan(host_source_exists),
{
    let mut steps: Vec<Step> = Vec::new();
    if !host_source_exists {
        let mut args: Vec<String> = Vec::new();
        push_text(&mut args, "clone");
        push_text(&mut args, "--depth");
        push_text(&mut args, "1");
        push_text(&mut args, "--branch");
        push_text(&mut args, LLVM_HOST_SOURCE_TAG);
        push_text(&mut args, LLVM_HOST_SOURCE_URL);
        push_text(&mut args, DIRECTORY_LLVM_HOST_SOURCE);
        assert(args.deep_view() =~= seq![
            "clone"@,
            "--depth"@,
            "1"@,
            "--branch"@,
            LLVM_HOST_SOURCE_TAG@,
            LLVM_HOST_SOURCE_URL@,
            DIRECTORY_LLVM_HOST_SOURCE@,
        ]);
        push_one(&mut steps, run("git", args, None, "LLVM host repository cloning"));
    }
    assert(steps.deep_view() =~= clone_host_plan(host_source_exists));
    steps
}

/// The text a clone is refused with where the source directory exists.
pub open spec fn already_cloned_message() -> Seq<char> {
    "The repository is already cloned at \"./llvm/\". Use `checkout` instead"@
}

/// The arguments of the clone of the locked branch: shallow unless `deep`.
pub open spec fn clone_args(lock: Lock, deep: bool) -> Seq<Seq<char>> {
    seq!["clone"@, "--branch"@, lock.branch@] + (if deep {
        Seq::empty()
    } else {
        seq!["--depth"@, "1"@]
    }) + seq![lock.url@, DIRECTORY_LLVM_SOURCE@]
}

/// The check out of the locked commit in the source tree, where there is one.
pub open spec fn commit_checkout(lock: Lock) -> Seq<StepV> {
    match lock.reference {
        Some(r) => seq![
            run_v(
                "git"@,
                seq!["checkout"@, r@],
                Some(DIRECTORY_LLVM_SOURCE@),
                "LLVM repository commit checking out"@,
            ),
        ],
        None => Seq::empty(),
    }
}

/// The steps of a clone before the refusal of an existing source directory:
/// the check for git, then, for musl builds on Linux, the clone of the host
/// sources.
pub open spec fn clone_head(target_env: TargetEnv, os: Option<Os>, host_source_exists: bool) -> Seq<
    StepV,
> {
    seq![StepV::RequireTool { name: "git"@ }] + (if os == Some(Os::Linux) && target_env
        == TargetEnv::MUSL {
        clone_host_plan(host_source_exists)
    } else {
        Seq::empty()
    })
}

/// Cloning the locked sources on a system `os` (none where not recognised):
/// check for git, clone the host sources for musl builds on Linux, refuse to
/// go on where the source directory exists, clone the locked branch into it,
/// then check out the locked commit.
pub open spec fn clone_plan(
    lock: Lock,
    deep: bool,
    target_env: TargetEnv,
    os: Option<Os>,
    host_source_exists: bool,
) -> Seq<StepV> {
    clone_head(target_env, os, host_source_exists) + seq![
        StepV::RequireAbsent { path: DIRECTORY_LLVM_SOURCE@, message: already_cloned_message() },
        run_v("git"@, clone_args(lock, deep), None, "LLVM repository cloning"@),
    ] + commit_checkout(lock)
}

/// Cloning the locked sources (see `clone_plan`); `host_source_exists` says
/// whether the host source directory exists.
pub fn clone(
    lock: &Lock,
    deep: bool,
    target_env: TargetEnv,
    os: Option<Os>,
    host_source_exists: bool,
) -> (r: Vec<Step>)
    ensures
        r.deep_view() == clone_plan(*lock, deep, target_env, os, host_source_exists),
{
    let mut steps: Vec<Step> = Vec::new();
    push_require(&mut steps, "git");
    let ghost head = steps.deep_view();
    if os == Some(Os::Linux) && target_env == TargetEnv::MUSL {
        push_all(&mut steps, clone_host(host_source_exists));
    } else {
        assert(steps.deep_view() =~= head + Seq::<StepV>::empty());
    }
    push_one(
        &mut steps,
        Step::RequireAbsent {
            path: String::from_str(DIRECTORY_LLVM_SOURCE),
            message: String::from_str(
                "The repository is already cloned at \"./llvm/\". Use `checkout` instead",
            ),
        },
    );
    let mut args: Vec<String> = Vec::new();
    push_text(&mut args, "clone");
    push_text(&mut args, "--branch");
    push_text(&mut args, lock.branch.as_str());
    if !deep {
        push_text(&mut args, "--depth");
        push_text(&mut args, "1");
    }
    push_text(&mut args, lock.url.as_str());
    push_text(&mut args, DIRECTORY_LLVM_SOURCE);
    assert(args.deep_view() =~= clone_args(*lock, deep));
    push_one(&mut steps, run("git", args, None, "LLVM repository cloning"));
    match &lock.reference {
        Some(reference) => {
            let mut checkout: Vec<String> = Vec::new();
            push_text(&mut checkout, "checkout");
            push_text(&mut checkout, reference.as_str());
            assert(checkout.deep_view() =~= seq!["checkout"@, reference@]);
            push_one(
                &mut steps,
                run(
                    "git",
                    checkout,
                    Some(String::from_str(DIRECTORY_LLVM_SOURCE)),
                    "LLVM repository commit checking out",
                ),
            );
        },
        None => {},
    }
    assert(steps.deep_view() =~= clone_plan(*lock, deep, target_env, os, host_source_exists));
    steps
}

/// Cloning twice without removing the sources in between fails the second
/// time: a clone checks for git and clones the host sources, then fails,
/// reporting that the sources are already cloned, where the source directory
/// exists; only after that check does it clone, and into that very directory.
/// So once a clone has succeeded, the next one stops at that check.
pub proof fn clone_twice_refused(
    lock: Lock,
    deep: bool,
    target_env: TargetEnv,
    os: Option<Os>,
    host_source_exists: bool,
)
    ensures
        ({
            let steps = clone_plan(lock, deep, target_env, os, host_source_exists);
            let i = clone_head(target_env, os, host_source_exists).len() as int;
            &&& steps.take(i) == clone_head(target_env, os, host_source_exists)
            &&& steps[i] == StepV::RequireAbsent {
                path: DIRECTORY_LLVM_SOURCE@,
                message: already_cloned_message(),
            }
            &&& steps[i + 1] == run_v(
                "git"@,
                clone_args(lock, deep),
                None,
                "LLVM repository cloning"@,
            )
            &&& clone_args(lock, deep).last() == DIRECTORY_LLVM_SOURCE@
        }),
{
    let steps = clone_plan(lock, deep, target_env, os, host_source_exists);
    let i = clone_head(target_env, os, host_source_exists).len() as int;
    assert(steps.take(i) =~= clone_head(target_env, os, host_source_exists));
}

/// A locked commit is checked out by a step of its own, the last one, which
/// comes right after the clone of the branch; so a commit that does not exist
/// fails the clone at that step, after the branch was cloned.
pub proof fn commit_checked_out_after_clone(
    lock: Lock,
    deep: bool,
    target_env: TargetEnv,
    os: Option<Os>,
    host_source_exists: bool,
)
    requires
        lock.reference is Some,
    ensures
        ({
            let steps = clone_plan(lock, deep, target_env, os, host_source_exists);
            &&& steps.len() >= 2
            &&& steps.last() == run_v(
                "git"@,
                seq!["checkout"@, lock.reference->Some_0@],
                Some(DIRECTORY_LLVM_SOURCE@),
                "LLVM repository commit checking out"@,
            )
            &&& steps[steps.len() - 2] == run_v(
                "git"@,
                clone_args(lock, deep),
                None,
                "LLVM repository cloning"@,
            )
        }),
{
}

/// A git command run in the source tree.
pub open spec fn git_in_source(args: Seq<Seq<char>>, description: Seq<char>) -> StepV {
    run_v("git"@, args, Some(DIRECTORY_LLVM_SOURCE@), description)
}

/// Checking out the locked sources in the existing source tree: fetch all
/// branches and tags, with `force` remove untracked files, check out the
/// branch, then the locked commit where there is one (forced with `force`).
pub open spec fn checkout_plan(lock: Lock, force: bool) -> Seq<StepV> {
    seq![git_in_source(seq!["fetch"@, "--all"@, "--tags"@], "LLVM repository data fetching"@)]
        + (if force {
        seq![
            git_in_source(
                seq!["clean"@, "-d"@, "-x"@, "--force"@],
                "LLVM repository cleaning"@,
            ),
        ]
    } else {
        Seq::empty()
    }) + seq![
        git_in_source(
            seq!["checkout"@, "--force"@, lock.branch@],
            "LLVM repository data pulling"@,
        ),
    ] + match lock.reference {
        Some(r) => seq![
            git_in_source(
                seq!["checkout"@] + (if force {
                    seq!["--force"@]
                } else {
                    Seq::empty()
                }) + seq![r@],
                "LLVM repository checking out"@,
            ),
        ],
        None => Seq::empty(),
    }
}

/// A git command run in the source tree.
fn git_step(args: Vec<String>, description: &str) -> (r: Step)
    ensures
        r.deep_view() == git_in_source(args.deep_view(), description@),
{
    run("git", args, Some(String::from_str(DIRECTORY_LLVM_SOURCE)), description)
}

/// Checking out the locked sources (see `checkout_plan`).
pub fn checkout(lock: &Lock, force: bool) -> (r: Vec<Step>)
    ensures
        r.deep_view() == checkout_plan(*lock, force),
{
    let mut steps: Vec<Step> = Vec::new();
    let mut fetch: Vec<String> = Vec::new();
    push_text(&mut fetch, "fetch");
    push_text(&mut fetch, "--all");
    push_text(&mut fetch, "--tags");
    assert(fetch.deep_view() =~= seq!["fetch"@, "--all"@, "--tags"@]);
    push_one(&mut steps, git_step(fetch, "LLVM repository data fetching"));
    if force {
        let mut clean: Vec<String> = Vec::new();
        push_text(&mut clean, "clean");
        push_text(&mut clean, "-d");
        push_text(&mut clean, "-x");
        push_text(&mut clean, "--force");
        assert(clean.deep_view() =~= seq!["clean"@, "-d"@, "-x"@, "--force"@]);
        push_one(&mut steps, git_step(clean, "LLVM repository cleaning"));
    }
    let mut branch: Vec<String> = Vec::new();
    push_text(&mut branch, "checkout");
    push_text(&mut branch, "--force");
    push_text(&mut branch, lock.branch.as_str());
    assert(branch.deep_view() =~= seq!["checkout"@, "--force"@, lock.branch@]);
    push_one(&mut steps, git_step(branch, "LLVM repository data pulling"));
    match &lock.reference {
        Some(reference) => {
            let mut args: Vec<String> = Vec::new();
            push_text(&mut args, "checkout");
            if force {
                push_text(&mut args, "--force");
            }
            push_text(&mut args, reference.as_str());
            assert(args.deep_view() =~= seq!["checkout"@] + (if force {
                seq!["--force"@]
            } else {
                Seq::empty()
            }) + seq![reference@]);
            push_one(&mut steps, git_step(args, "LLVM repository checking out"));
        },
        None => {},
    }
    assert(steps.deep_view() =~= checkout_plan(*lock, force));
    steps
}

/// Removing the build root with everything under it.
pub open spec fn clean_plan() -> Seq<StepV> {
    seq![
        StepV::RemoveDir {
            path: DIRECTORY_LLVM_TARGET@,
            description: "Unable to remove target LLVM directory"@,
        },
    ]
}

/// Removing the build root (see `clean_plan`).
pub fn clean() -> (r: Vec<Step>)
    ensures
        r.deep_view() == clean_plan(),
{
    let mut steps: Vec<Step> = Vec::new();
    push_one(
        &mut steps,
        Step::RemoveDir {
            path: String::from_str(DIRECTORY_LLVM_TARGET),
            description: String::from_str("Unable to remove target LLVM directory"),
        },
    );
    assert(steps.deep_view() =~= clean_plan());
    steps
}

/// What a build needs to know of the machine besides its architecture and system.
pub struct HostFacts {
    /// Whether the musl sources have been unpacked in the build root already.
    pub musl_source_exists: bool,
    /// The major version of the Xcode command line tools, where known.
    pub xcode_version: Option<u32>,
    /// The static C++ runtime archive to ship with a Windows build, where given.
    pub libstdcpp_source: Option<String>,
    /// Where the system keeps the C headers that a musl build borrows.
    pub header_layout: HeaderLayout,
}

/// Why a build is refused.
#[derive(Debug, Clone, Copy, PartialEq, Eq, Structural)]
pub enum BuildError {
    /// The machine's architecture is neither x86_64 nor aarch64.
    UnsupportedArchitecture,
    /// The machine's system is not supported on its architecture.
    UnsupportedOs { arch: Arch },
    /// A Windows build was not given the static C++ runtime archive.
    MissingRuntimeArchive,
}

impl BuildError {
    /// The text the error is reported with.
    pub open spec fn text(self) -> Seq<char> {
        match self {
            BuildError::UnsupportedArchitecture => "Unsupported target architecture"@,
            BuildError::UnsupportedOs { arch } => "Unsupported target OS for "@ + arch.name(),
            BuildError::MissingRuntimeArchive => "The `LIBSTDCPP_SOURCE_PATH` must be set to the path to the libstdc++.a static library"@,
        }
    }

    /// The text the error is reported with.
    pub fn message(&self) -> (r: String)
        ensures
            r@ == self.text(),
    {
        match self {
            BuildError::UnsupportedArchitecture => String::from_str(
                "Unsupported target architecture",
            ),
            BuildError::UnsupportedOs { arch } => String::from_str(
                "Unsupported target OS for ",
            ).concat(arch.to_string().as_str()),
            BuildError::MissingRuntimeArchive => String::from_str(
                "The `LIBSTDCPP_SOURCE_PATH` must be set to the path to the libstdc++.a static library",
            ),
        }
    }
}

/// The check for the compiler cache that a build is asked to use, if any.
pub open spec fn ccache_check(variant: Option<CcacheVariant>) -> Seq<StepV> {
    match variant {
        Some(v) => seq![StepV::RequireTool { name: v.name() }],
        None => Seq::empty(),
    }
}

/// Building the toolchain on a machine of architecture `arch` and system
/// `os` (none where unsupported) in the working directory `cwd`: check for
/// the compiler cache where one is asked for, create the build root, then on
/// Linux with musl the four-stage build with `jobs` parallel jobs for the C
/// library and the host's header layout `layout`, and elsewhere the direct build, which on
/// Windows, available on x86_64 only, ships the given C++ runtime archive.
pub open spec fn build_plan(
    arch: Option<Arch>,
    os: Option<Os>,
    target_env: TargetEnv,
    cwd: Seq<char>,
    o: BuildOptions,
    musl_source_exists: bool,
    xcode_version: Option<u32>,
    runtime_archive: Option<Seq<char>>,
    jobs: nat,
    layout: HeaderLayout,
) -> Result<Seq<StepV>, BuildError> {
    let root = ccache_check(o.ccache_variant) + seq![StepV::CreateDir { path: DIRECTORY_LLVM_TARGET@ }];
    match arch {
        None => Err(BuildError::UnsupportedArchitecture),
        Some(a) => match os {
            Some(Os::Linux) => if target_env == TargetEnv::MUSL {
                Ok(root + musl_pipeline(a, cwd, o, musl_source_exists, jobs, layout))
            } else {
                Ok(root + direct_plan(Os::Linux, cwd, o, xcode_version, None))
            },
            Some(Os::MacOS) => Ok(root + direct_plan(Os::MacOS, cwd, o, xcode_version, None)),
            Some(Os::WindowsGnu) => if a != Arch::X86_64 {
                Err(BuildError::UnsupportedOs { arch: a })
            } else {
                match runtime_archive {
                    None => Err(BuildError::MissingRuntimeArchive),
                    Some(p) => Ok(
                        root + direct_plan(Os::WindowsGnu, cwd, o, xcode_version, Some(p)),
                    ),
                }
            },
            None => Err(BuildError::UnsupportedOs { arch: a }),
        },
    }
}

/// Building the toolchain with `jobs` parallel jobs for the C library (see `build_plan`).
pub fn build_with_jobs(
    arch: Option<Arch>,
    os: Option<Os>,
    target_env: TargetEnv,
    cwd: &str,
    options: &BuildOptions,
    facts: &HostFacts,
    jobs: usize,
) -> (r: Result<Vec<Step>, BuildError>)
    ensures
        plan_view(r) == build_plan(
            arch,
            os,
            target_env,
            cwd@,
            *options,
            facts.musl_source_exists,
            facts.xcode_version,
            facts.libstdcpp_source.deep_view(),
            jobs as nat,
            facts.header_layout,
        ),
{
    let a = match arch {
        None => return Err(BuildError::UnsupportedArchitecture),
        Some(a) => a,
    };
    let system = match os {
        None => return Err(BuildError::UnsupportedOs { arch: a }),
        Some(s) => s,
    };
    let mut steps: Vec<Step> = Vec::new();
    match options.ccache_variant {
        Some(v) => {
            let name = v.to_string();
            push_require(&mut steps, name.as_str());
        },
        None => {},
    }
    push_one(&mut steps, Step::CreateDir { path: String::from_str(DIRECTORY_LLVM_TARGET) });
    assert(steps.deep_view() =~= ccache_check(options.ccache_variant) + seq![
        StepV::CreateDir { path: DIRECTORY_LLVM_TARGET@ },
    ]);
    match system {
        Os::Linux => {
            if target_env == TargetEnv::MUSL {
                push_all(
                    &mut steps,
                    crate::platforms::linux_musl::build(
                        a,
                        cwd,
                        options,
                        facts.musl_source_exists,
                        jobs,
                        &facts.header_layout,
                    ),
                );
            } else {
                push_all(
                    &mut steps,
                    crate::platforms::direct::build(Os::Linux, cwd, options, facts.xcode_version, None),
                );
            }
        },
        Os::MacOS => {
            push_all(
                &mut steps,
                crate::platforms::direct::build(Os::MacOS, cwd, options, facts.xcode_version, None),
            );
        },
        Os::WindowsGnu => {
            if a != Arch::X86_64 {
                return Err(BuildError::UnsupportedOs { arch: a });
            }
            match &facts.libstdcpp_source {
                None => return Err(BuildError::MissingRuntimeArchive),
                Some(p) => {
                    push_all(
                        &mut steps,
                        crate::platforms::direct::build(
                            Os::WindowsGnu,
                            cwd,
                            options,
                            facts.xcode_version,
                            Some(p.as_str()),
                        ),
                    );
                },
            }
        },
    }
    Ok(steps)
}

/// Building the toolchain (see `build_plan`), with as many parallel jobs for
/// the C library as the process has CPUs; the plan is the one of that count,
/// which is at least one.
pub fn build(
    arch: Option<Arch>,
    os: Option<Os>,
    target_env: TargetEnv,
    cwd: &str,
    options: &BuildOptions,
    facts: &HostFacts,
) -> (r: Result<Vec<Step>, BuildError>)
    ensures
        exists|jobs: nat|
            jobs >= 1 && plan_view(r) == #[trigger] build_plan(
                arch,
                os,
                target_env,
                cwd@,
                *options,
                facts.musl_source_exists,
                facts.xcode_version,
                facts.libstdcpp_source.deep_view(),
                jobs,
                facts.header_layout,
            ),
{
    let jobs = logical_cpus();
    let r = build_with_jobs(arch, os, target_env, cwd, options, facts, jobs);
    assert(plan_view(r) == build_plan(
        arch,
        os,
        target_env,
        cwd@,
        *options,
        facts.musl_source_exists,
        facts.xcode_version,
        facts.libstdcpp_source.deep_view(),
        jobs as nat,
        facts.header_layout,
    ));
    r
}

/// Whether `step` configures with the build system from the source directory
/// `source`, for installation into `prefix`.
pub open spec fn configures_from(step: StepV, source: Seq<char>, prefix: Seq<char>) -> bool {
    step matches StepV::Run { program, args, .. } && program == "cmake"@ && args.len() >= 2
        && args[0] == "-S"@ && args[1] == source && args.contains(
        cmake_flag("CMAKE_INSTALL_PREFIX"@, prefix),
    )
}

/// The build and install of the final toolchain from its build directory.
pub open spec fn final_install(cwd: Seq<char>) -> StepV {
    run_v(
        "ninja"@,
        seq!["-C"@, under(cwd, DIRECTORY_LLVM_TARGET@, "build-final"@), "install"@],
        None,
        "Running ninja install"@,
    )
}

/// A build reads the cloned sources and installs the toolchain: every plan
/// that a build produces configures the toolchain from the `llvm` module of
/// the source directory, for installation into the final install directory,
/// and the very next step builds and installs it there. So without a clone
/// the configure step fails, naming the missing directory, before anything
/// is installed into the final install directory; and once every step has
/// succeeded, the toolchain is installed there.
pub proof fn build_configures_cloned_sources(
    arch: Option<Arch>,
    os: Option<Os>,
    target_env: TargetEnv,
    cwd: Seq<char>,
    o: BuildOptions,
    musl_source_exists: bool,
    xcode_version: Option<u32>,
    runtime_archive: Option<Seq<char>>,
    jobs: nat,
    layout: HeaderLayout,
)
    requires
        build_plan(
            arch,
            os,
            target_env,
            cwd,
            o,
            musl_source_exists,
            xcode_version,
            runtime_archive,
            jobs,
            layout,
        ) is Ok,
    ensures
        ({
            let steps = build_plan(
                arch,
                os,
                target_env,
                cwd,
                o,
                musl_source_exists,
                xcode_version,
                runtime_archive,
                jobs,
                layout,
            )->Ok_0;
            exists|i: int|
                0 <= i < steps.len() - 1 && configures_from(
                    #[trigger] steps[i],
                    under(cwd, DIRECTORY_LLVM_SOURCE@, "llvm"@),
                    under(cwd, DIRECTORY_LLVM_TARGET@, "target-final"@),
                ) && steps[i + 1] == final_install(cwd)
        }),
{
    let steps = build_plan(
        arch,
        os,
        target_env,
        cwd,
        o,
        musl_source_exists,
        xcode_version,
        runtime_archive,
        jobs,
        layout,
    )->Ok_0;
    let source = under(cwd, DIRECTORY_LLVM_SOURCE@, "llvm"@);
    let prefix = under(cwd, DIRECTORY_LLVM_TARGET@, "target-final"@);
    let a = arch->Some_0;
    let system = os->Some_0;
    if system == Os::Linux && target_env == TargetEnv::MUSL {
        let t = DIRECTORY_LLVM_TARGET@;
        let fetch: Seq<StepV> = if musl_source_exists {
            Seq::empty()
        } else {
            musl_download_plan(cwd, crate::platforms::linux_musl::MUSL_NAME@)
        };
        let before: int = (ccache_check(o.ccache_variant).len() + 1 + require_tools_v(musl_tools()).len() + fetch.len() + 14 + 2 + 3) as int;
        assert(steps[before] == run_v(
            "cmake"@,
            final_cmake_args(o, source, under(cwd, t, "build-final"@), under(cwd, t, "target-final"@), under(cwd, t, "target-host"@)),
            None,
            "LLVM target building cmake"@,
        ));
        let args = final_cmake_args(o, source, under(cwd, t, "build-final"@), prefix, under(cwd, t, "target-host"@));
        assert(args[8] == cmake_flag("CMAKE_INSTALL_PREFIX"@, prefix));
        assert(configures_from(steps[before], source, prefix));
        assert(steps[before + 1] == final_install(cwd));
    } else {
        let i: int = (ccache_check(o.ccache_variant).len() + 1 + require_tools_v(direct_tools(system)).len()) as int;
        let args = direct_cmake_args(
            system,
            o,
            source,
            under(cwd, DIRECTORY_LLVM_TARGET@, "build-final"@),
            prefix,
            xcode_version,
        );
        assert(steps[i] == run_v("cmake"@, args, None, "LLVM building cmake"@));
        assert(args[6] == cmake_flag("CMAKE_INSTALL_PREFIX"@, prefix));
        assert(configures_from(steps[i], source, prefix));
        assert(steps[i + 1] == final_install(cwd));
    }
}

/// Cleaning undoes a build: every plan that a build produces creates the
/// build root, and cleaning removes exactly that directory with everything
/// under it, failing where it is absent.
pub proof fn clean_removes_build_root(
    arch: Option<Arch>,
    os: Option<Os>,
    target_env: TargetEnv,
    cwd: Seq<char>,
    o: BuildOptions,
    musl_source_exists: bool,
    xcode_version: Option<u32>,
    runtime_archive: Option<Seq<char>>,
    jobs: nat,
    layout: HeaderLayout,
)
    requires
        build_plan(
            arch,
            os,
            target_env,
            cwd,
            o,
            musl_source_exists,
            xcode_version,
            runtime_archive,
            jobs,
            layout,
        ) is Ok,
    ensures
        build_plan(
            arch,
            os,
            target_env,
            cwd,
            o,
            musl_source_exists,
            xcode_version,
            runtime_archive,
            jobs,
            layout,
        )->Ok_0.contains(StepV::CreateDir { path: DIRECTORY_LLVM_TARGET@ }),
        clean_plan() == seq![
            StepV::RemoveDir {
                path: DIRECTORY_LLVM_TARGET@,
                description: "Unable to remove target LLVM directory"@,
            },
        ],
{
    let steps = build_plan(
        arch,
        os,
        target_env,
        cwd,
        o,
        musl_source_exists,
        xcode_version,
        runtime_archive,
        jobs,
        layout,
    )->Ok_0;
    let i: int = ccache_check(o.ccache_variant).len() as int;
    assert(steps[i] == StepV::CreateDir { path: DIRECTORY_LLVM_TARGET@ });
}

} // verus!
