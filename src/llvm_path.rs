//! The directories that the source trees and the build stages live in.

use vstd::prelude::*;

use crate::text::path_pushed;
use crate::text::push_path;

verus! {

/// The directory layout, relative to the working directory.
pub struct LLVMPath {}

/// The source tree of the host toolchain used to bootstrap musl builds.
pub const DIRECTORY_LLVM_HOST_SOURCE: &'static str = "./llvm-host/";

/// The source tree of the toolchain.
pub const DIRECTORY_LLVM_SOURCE: &'static str = "./llvm/";

/// The root of every build and install directory.
pub const DIRECTORY_LLVM_TARGET: &'static str = "./target-llvm/";

/// `dir/name` made absolute against the working directory `cwd`.
pub open spec fn under(cwd: Seq<char>, dir: Seq<char>, name: Seq<char>) -> Seq<char> {
    path_pushed(cwd, path_pushed(dir, name))
}

/// The path of `name` inside `dir`, made absolute against `cwd`.
fn absolute(cwd: &str, dir: &str, name: &str) -> (r: String)
    ensures
        r@ == under(cwd@, dir@, name@),
{
    let relative = push_path(dir, name);
    push_path(cwd, relative.as_str())
}

impl LLVMPath {
    /// The path to the `llvm` module of the host source tree, used to bootstrap a musl toolchain.
    pub fn llvm_host_module_llvm(cwd: &str) -> (r: String)
        ensures
            r@ == under(cwd@, DIRECTORY_LLVM_HOST_SOURCE@, "llvm"@),
    {
        absolute(cwd, DIRECTORY_LLVM_HOST_SOURCE, "llvm")
    }

    /// The path to the `llvm` module of the source tree.
    pub fn llvm_module_llvm(cwd: &str) -> (r: String)
        ensures
            r@ == under(cwd@, DIRECTORY_LLVM_SOURCE@, "llvm"@),
    {
        absolute(cwd, DIRECTORY_LLVM_SOURCE, "llvm")
    }

    /// The path to the build directory of the compiler runtime.
    pub fn llvm_build_crt(cwd: &str) -> (r: String)
        ensures
            r@ == under(cwd@, DIRECTORY_LLVM_TARGET@, "build-crt"@),
    {
        absolute(cwd, DIRECTORY_LLVM_TARGET, "build-crt")
    }

    /// The path to the build directory of the host toolchain.
    pub fn llvm_build_host(cwd: &str) -> (r: String)
        ensures
            r@ == under(cwd@, DIRECTORY_LLVM_TARGET@, "build-host"@),
    {
        absolute(cwd, DIRECTORY_LLVM_TARGET, "build-host")
    }

    /// The path to the build directory of the final toolchain.
    pub fn llvm_build_final(cwd: &str) -> (r: String)
        ensures
            r@ == under(cwd@, DIRECTORY_LLVM_TARGET@, "build-final"@),
    {
        absolute(cwd, DIRECTORY_LLVM_TARGET, "build-final")
    }

    /// The path to the install directory of the musl C library.
    pub fn musl_target(cwd: &str) -> (r: String)
        ensures
            r@ == under(cwd@, DIRECTORY_LLVM_TARGET@, "target-musl"@),
    {
        absolute(cwd, DIRECTORY_LLVM_TARGET, "target-musl")
    }

    /// The path to the install directory of the compiler runtime.
    pub fn llvm_target_crt(cwd: &str) -> (r: String)
        ensures
            r@ == under(cwd@, DIRECTORY_LLVM_TARGET@, "target-crt"@),
    {
        absolute(cwd, DIRECTORY_LLVM_TARGET, "target-crt")
    }

    /// The path to the install directory of the host toolchain.
    pub fn llvm_target_host(cwd: &str) -> (r: String)
        ensures
            r@ == under(cwd@, DIRECTORY_LLVM_TARGET@, "target-host"@),
    {
        absolute(cwd, DIRECTORY_LLVM_TARGET, "target-host")
    }

    /// The path to the install directory of the final toolchain.
    pub fn llvm_target_final(cwd: &str) -> (r: String)
        ensures
            r@ == under(cwd@, DIRECTORY_LLVM_TARGET@, "target-final"@),
    {
        absolute(cwd, DIRECTORY_LLVM_TARGET, "target-final")
    }

    /// The path to the musl source tree or archive called `name`.
    pub fn musl_source(cwd: &str, name: &str) -> (r: String)
        ensures
            r@ == under(cwd@, DIRECTORY_LLVM_TARGET@, name@),
    {
        absolute(cwd, DIRECTORY_LLVM_TARGET, name)
    }

    /// The path to the build directory inside the musl source tree `source_directory`.
    pub fn musl_build(cwd: &str, source_directory: &str) -> (r: String)
        ensures
            r@ == path_pushed(under(cwd@, DIRECTORY_LLVM_TARGET@, source_directory@), "build"@),
    {
        let source = absolute(cwd, DIRECTORY_LLVM_TARGET, source_directory);
        push_path(source.as_str(), "build")
    }
}

} // verus!
