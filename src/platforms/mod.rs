//! The back ends a toolchain is built for, and the per-platform build plans.

use vstd::prelude::*;
use vstd::string::StringExecFns;

use crate::build_type::BuildType;
use crate::ccache_variant::CcacheVariant;
use crate::sanitizer::Sanitizer;
use crate::step::push_one;
use crate::target_triple::TargetTriple;
use crate::text::concat3;
use crate::text::str_equal;
use crate::text::strip_first;

pub use crate::target_env::TargetEnv;

pub mod direct;
pub mod linux_musl;
pub mod shared;

verus! {

/// A code generation back end of the toolchain.
#[derive(Debug, Clone, Copy, PartialEq, Eq, Hash, Structural)]
pub enum Platform {
    /// The native X86 back end.
    X86,
    /// The native AArch64 back end.
    AArch64,
    /// The EraVM back end.
    EraVM,
    /// The EVM back end.
    EVM,
}

impl Platform {
    /// The name the build system knows the back end by.
    pub open spec fn name(self) -> Seq<char> {
        match self {
            Platform::X86 => "X86"@,
            Platform::AArch64 => "AArch64"@,
            Platform::EraVM => "EraVM"@,
            Platform::EVM => "EVM"@,
        }
    }

    /// The back ends that can be asked for by name as additional targets:
    /// the native ones are chosen by the build itself.
    pub open spec fn named(s: Seq<char>) -> Option<Platform> {
        if s == "EraVM"@ {
            Some(Platform::EraVM)
        } else if s == "EVM"@ {
            Some(Platform::EVM)
        } else {
            None
        }
    }

    /// The error text for a name that stands for no back end.
    pub open spec fn unknown_message(s: Seq<char>) -> Seq<char> {
        "Unsupported platform: `"@ + s + "`"@
    }

    /// The name of the back end, as a new string.
    pub fn to_string(&self) -> (r: String)
        ensures
            r@ == self.name(),
    {
        let s: &str = match self {
            Platform::X86 => "X86",
            Platform::AArch64 => "AArch64",
            Platform::EraVM => "EraVM",
            Platform::EVM => "EVM",
        };
        String::from_str(s)
    }

    /// Reads an additional target from its name; any other text, the native
    /// back ends' names included, is refused with a message that quotes it.
    pub fn from_str(value: &str) -> (r: Result<Platform, String>)
        ensures
            match Self::named(value@) {
                Some(v) => r == Ok::<Platform, String>(v),
                None => r.is_err() && r->Err_0@ == Self::unknown_message(value@),
            },
    {
        if str_equal(value, "EraVM") {
            return Ok(Platform::EraVM);
        }
        if str_equal(value, "EVM") {
            return Ok(Platform::EVM);
        }
        Err(concat3("Unsupported platform: `", value, "`"))
    }
}

/// A processor architecture the toolchain can be built on.
#[derive(Debug, Clone, Copy, PartialEq, Eq, Hash, Structural)]
pub enum Arch {
    /// 64-bit x86.
    X86_64,
    /// 64-bit ARM.
    AArch64,
}

impl Arch {
    /// The architecture's name in target triples and system paths.
    pub open spec fn name(self) -> Seq<char> {
        match self {
            Arch::X86_64 => "x86_64"@,
            Arch::AArch64 => "aarch64"@,
        }
    }

    /// The back end that generates code for the architecture itself.
    pub open spec fn native(self) -> Platform {
        match self {
            Arch::X86_64 => Platform::X86,
            Arch::AArch64 => Platform::AArch64,
        }
    }

    /// The target triple of the architecture with the musl C library.
    pub open spec fn musl_triple(self) -> Seq<char> {
        self.name() + "-pc-linux-musl"@
    }

    /// The architecture's name in target triples and system paths.
    pub fn to_string(&self) -> (r: String)
        ensures
            r@ == self.name(),
    {
        match self {
            Arch::X86_64 => String::from_str("x86_64"),
            Arch::AArch64 => String::from_str("aarch64"),
        }
    }

    /// The back end that generates code for the architecture itself.
    pub fn native_platform(&self) -> (r: Platform)
        ensures
            r == self.native(),
    {
        match self {
            Arch::X86_64 => Platform::X86,
            Arch::AArch64 => Platform::AArch64,
        }
    }

    /// The target triple of the architecture with the musl C library.
    pub fn musl_triple_of(&self) -> (r: String)
        ensures
            r@ == self.musl_triple(),
    {
        self.to_string().concat("-pc-linux-musl")
    }
}

/// An operating system the toolchain can be built on.
#[derive(Debug, Clone, Copy, PartialEq, Eq, Hash, Structural)]
pub enum Os {
    /// Linux, with either C library.
    Linux,
    /// macOS.
    MacOS,
    /// Windows with the GNU toolchain of MSYS2.
    WindowsGnu,
}

/// What a build is asked to produce, fixed for the whole build.
#[derive(Debug, Clone)]
pub struct BuildOptions {
    /// The optimisation profile of the final toolchain.
    pub build_type: BuildType,
    /// The back ends of the final toolchain; a repeated one is built once.
    pub targets: Vec<Platform>,
    /// The default target triple; EraVM where none is given.
    pub default_target: Option<TargetTriple>,
    /// Whether run-time type information is kept.
    pub enable_rtti: bool,
    /// Whether the tests are built.
    pub enable_tests: bool,
    /// Whether the build is instrumented for code coverage.
    pub enable_coverage: bool,
    /// Flags passed on to the build system as they are, after the others.
    pub extra_args: Vec<String>,
    /// The compiler cache the compilers are launched through, if any.
    pub ccache_variant: Option<CcacheVariant>,
    /// Whether assertions are kept.
    pub enable_assertions: bool,
    /// The sanitizer the toolchain is instrumented with, if any.
    pub sanitizer: Option<Sanitizer>,
    /// Whether the regression tests run under Valgrind.
    pub enable_valgrind: bool,
    /// Options handed to Valgrind.
    pub valgrind_options: Vec<String>,
}

/// The names of the back ends, in order.
pub open spec fn platform_names(targets: Seq<Platform>) -> Seq<Seq<char>> {
    targets.map_values(|p: Platform| p.name())
}

/// The names of the back ends, in the order of their first occurrence, each once.
pub fn distinct_platform_names_of(targets: &Vec<Platform>) -> (r: Vec<String>)
    ensures
        r.deep_view() == platform_names(distinct_platforms(targets@)),
{
    let distinct = distinct_platforms_of(targets);
    platform_names_of(&distinct)
}

/// The names of the back ends, in order.
pub fn platform_names_of(targets: &Vec<Platform>) -> (r: Vec<String>)
    ensures
        r.deep_view() == platform_names(targets@),
{
    let mut r: Vec<String> = Vec::new();
    let mut i: usize = 0;
    while i < targets.len()
        invariant
            i <= targets.len(),
            r.deep_view() == platform_names(targets@.take(i as int)),
        decreases targets.len() - i,
    {
        push_one(&mut r, targets[i].to_string());
        assert(platform_names(targets@.take(i + 1)) =~= platform_names(targets@.take(i as int)).push(
            targets@[i as int].name(),
        ));
        i = i + 1;
    }
    assert(targets@.take(i as int) =~= targets@);
    r
}

/// The back ends with `p` added at the end, unless it is there already.
pub open spec fn with_platform(targets: Seq<Platform>, p: Platform) -> Seq<Platform> {
    if targets.contains(p) {
        targets
    } else {
        targets.push(p)
    }
}

/// Adding a back end keeps the back ends free of repeats.
pub proof fn lemma_with_platform_distinct(targets: Seq<Platform>, p: Platform)
    requires
        targets.no_duplicates(),
    ensures
        with_platform(targets, p).no_duplicates(),
        with_platform(targets, p).contains(p),
{
    if !targets.contains(p) {
        let t = targets.push(p);
        assert(t[targets.len() as int] == p);
        assert forall|i: int, j: int| 0 <= i < t.len() && 0 <= j < t.len() && i != j implies t[i]
            != t[j] by {
            if i < targets.len() && j < targets.len() {
                assert(t[i] == targets[i] && t[j] == targets[j]);
            } else if i < targets.len() {
                assert(t[i] == targets[i]);
            } else {
                assert(t[j] == targets[j]);
            }
        }
    }
}

/// The back ends in the order of their first occurrence, each once.
pub open spec fn distinct_platforms(targets: Seq<Platform>) -> Seq<Platform>
    decreases targets.len(),
{
    if targets.len() == 0 {
        targets
    } else {
        with_platform(distinct_platforms(targets.drop_last()), targets.last())
    }
}

/// The back ends in the order of their first occurrence, each once.
pub fn distinct_platforms_of(targets: &Vec<Platform>) -> (r: Vec<Platform>)
    ensures
        r@ == distinct_platforms(targets@),
        r@.no_duplicates(),
{
    let mut r: Vec<Platform> = Vec::new();
    let mut i: usize = 0;
    assert(targets@.take(0) =~= Seq::<Platform>::empty());
    while i < targets.len()
        invariant
            i <= targets.len(),
            r@ == distinct_platforms(targets@.take(i as int)),
            r@.no_duplicates(),
        decreases targets.len() - i,
    {
        proof {
            lemma_with_platform_distinct(r@, targets@[i as int]);
        }
        add_platform(&mut r, targets[i]);
        assert(targets@.take(i + 1).drop_last() =~= targets@.take(i as int));
        i = i + 1;
    }
    assert(targets@.take(i as int) =~= targets@);
    r
}

/// Adds `p` at the end of the back ends, unless it is there already.
pub fn add_platform(targets: &mut Vec<Platform>, p: Platform)
    ensures
        final(targets)@ == with_platform(old(targets)@, p),
{
    let mut i: usize = 0;
    while i < targets.len()
        invariant
            i <= targets.len(),
            targets@ == old(targets)@,
            forall|j: int| 0 <= j < i ==> targets@[j] != p,
        decreases targets.len() - i,
    {
        if targets[i] == p {
            assert(targets@.contains(p));
            return;
        }
        i = i + 1;
    }
    targets.push(p);
}

/// The back ends named by `names`, in the order of their first mention, or
/// the message for the first name that stands for no back end.
pub open spec fn requested_platforms(names: Seq<Seq<char>>) -> Result<Seq<Platform>, Seq<char>>
    decreases names.len(),
{
    if names.len() == 0 {
        Ok(Seq::empty())
    } else {
        match requested_platforms(names.drop_last()) {
            Err(e) => Err(e),
            Ok(ts) => match Platform::named(names.last()) {
                Some(p) => Ok(with_platform(ts, p)),
                None => Err(Platform::unknown_message(names.last())),
            },
        }
    }
}

/// The back ends a build targets: those named, then EraVM and EVM, which
/// every build has; or the message for the first name that stands for no
/// back end.
pub open spec fn build_targets(names: Seq<Seq<char>>) -> Result<Seq<Platform>, Seq<char>> {
    match requested_platforms(names) {
        Ok(ts) => Ok(with_platform(with_platform(ts, Platform::EraVM), Platform::EVM)),
        Err(e) => Err(e),
    }
}

/// Reads the back ends a build targets from their names (see `build_targets`).
pub fn parse_targets(names: &Vec<String>) -> (r: Result<Vec<Platform>, String>)
    ensures
        match build_targets(names.deep_view()) {
            Ok(ts) => r.is_ok() && r->Ok_0@ == ts,
            Err(e) => r.is_err() && r->Err_0@ == e,
        },
        r is Ok ==> r->Ok_0@.no_duplicates(),
{
    let mut targets: Vec<Platform> = Vec::new();
    let mut i: usize = 0;
    while i < names.len()
        invariant
            i <= names.len(),
            requested_platforms(names.deep_view().take(i as int)) == Ok::<Seq<Platform>, Seq<char>>(
                targets@,
            ),
            targets@.no_duplicates(),
        decreases names.len() - i,
    {
        let ghost prefix = names.deep_view().take(i as int);
        assert(names.deep_view().take(i + 1).drop_last() =~= prefix);
        match Platform::from_str(names[i].as_str()) {
            Ok(p) => {
                proof {
                    lemma_with_platform_distinct(targets@, p);
                }
                add_platform(&mut targets, p);
            },
            Err(e) => {
                let ghost msg = Platform::unknown_message(names.deep_view()[i as int]);
                assert(names.deep_view().take(i + 1).last() == names.deep_view()[i as int]);
                assert(requested_platforms(names.deep_view().take(i + 1)) == Err::<
                    Seq<Platform>,
                    Seq<char>,
                >(msg));
                proof {
                    lemma_prefix_error_persists(names.deep_view(), (i + 1) as nat);
                }
                assert(names.deep_view().take(names.len() as int) =~= names.deep_view());
                assert(requested_platforms(names.deep_view().take(names.len() as int))
                    == requested_platforms(names.deep_view().take(i + 1)));
                return Err(e);
            },
        }
        i = i + 1;
    }
    assert(names.deep_view().take(i as int) =~= names.deep_view());
    proof {
        lemma_with_platform_distinct(targets@, Platform::EraVM);
        lemma_with_platform_distinct(with_platform(targets@, Platform::EraVM), Platform::EVM);
    }
    add_platform(&mut targets, Platform::EraVM);
    add_platform(&mut targets, Platform::EVM);
    Ok(targets)
}

/// Once a prefix of the names fails, every longer prefix fails the same way.
pub proof fn lemma_prefix_error_persists(names: Seq<Seq<char>>, n: nat)
    requires
        n <= names.len(),
        requested_platforms(names.take(n as int)).is_err(),
    ensures
        forall|k: nat|
            n <= k <= names.len() ==> #[trigger] requested_platforms(names.take(k as int))
                == requested_platforms(names.take(n as int)),
    decreases names.len() - n,
{
    if n < names.len() {
        assert(names.take(n + 1 as int).drop_last() =~= names.take(n as int));
        lemma_prefix_error_persists(names, n + 1);
    }
}

/// The argument with one leading backslash taken off, which lets a flag that
/// starts with a dash pass the command line.
pub open spec fn unescaped(arg: Seq<char>) -> Seq<char> {
    if arg.len() > 0 && arg[0] == '\\' {
        arg.drop_first()
    } else {
        arg
    }
}

/// Each extra argument with one leading backslash taken off.
pub fn unescape_extra_args(args: &Vec<String>) -> (r: Vec<String>)
    ensures
        r.deep_view() == args.deep_view().map_values(|a: Seq<char>| unescaped(a)),
{
    let mut r: Vec<String> = Vec::new();
    let mut i: usize = 0;
    while i < args.len()
        invariant
            i <= args.len(),
            r.deep_view() == args.deep_view().take(i as int).map_values(|a: Seq<char>| unescaped(a)),
        decreases args.len() - i,
    {
        push_one(&mut r, strip_first(args[i].as_str(), '\\'));
        assert(args.deep_view().take(i + 1).map_values(|a: Seq<char>| unescaped(a)) =~= args.deep_view().take(
            i as int,
        ).map_values(|a: Seq<char>| unescaped(a)).push(unescaped(args.deep_view()[i as int])));
        i = i + 1;
    }
    assert(args.deep_view().take(i as int) =~= args.deep_view());
    r
}

} // verus!
