//! The few things this crate takes on trust from the host: what `nix` says
//! about an errno, a device number and the stack limit, and what the standard
//! library says about a directory, about the debug form of a path and about
//! the text of an I/O error.
//!
//! Nothing here is proved. Each function is a single call, and its contract
//! repeats what the called function documents.

use vstd::prelude::*;

verus! {

/// The text by which `nix` describes an errno value (`Errno::desc`), for
/// example "Operation not permitted".
pub uninterp spec fn errno_description(errno: i32) -> Seq<char>;

/// The text that `nix` prints for an errno value (`Display` of `Errno`), for
/// example "EPERM: Operation not permitted".
pub uninterp spec fn errno_display(errno: i32) -> Seq<char>;

/// Calls `nix::errno::Errno::desc` on the errno with the given number.
///
/// The description is looked up in a fixed table, so it depends on the number
/// alone. Numbers that `nix` does not know are described as an unknown errno.
#[verifier::external_body]
pub(crate) fn describe_errno(errno: i32) -> (text: String)
    ensures
        text@ == errno_description(errno),
{
    nix::errno::Errno::from_i32(errno).desc().to_string()
}

/// Formats the errno with the given number through the `Display` impl that
/// `nix` gives to `Errno`.
///
/// The output is made of the variant's name and its description, both fixed
/// per number.
#[verifier::external_body]
pub(crate) fn display_errno(errno: i32) -> (text: String)
    ensures
        text@ == errno_display(errno),
{
    nix::errno::Errno::from_i32(errno).to_string()
}

/// The number under which the kernel knows the device `major:minor`, as
/// `nix::sys::stat::makedev` packs it on Linux: the low twelve bits of the
/// major number sit above the low eight bits of the minor number, and the
/// remaining bits of both follow above those.
pub open spec fn device_number(major: u64, minor: u64) -> u64 {
    ((major & 0xffff_f000) << 32) | ((major & 0x0000_0fff) << 8) | ((minor & 0xffff_ff00) << 12) | (
    minor & 0x0000_00ff)
}

/// Calls `nix::sys::stat::makedev`, which computes the device number from
/// its two arguments by masks and shifts alone.
#[verifier::external_body]
pub(crate) fn make_device_number(major: u64, minor: u64) -> (device: u64)
    ensures
        device == device_number(major, minor),
{
    nix::sys::stat::makedev(major, minor)
}

/// The text that the standard library's `Debug` formatting gives for
/// `Some(path)`, with the text taken as a `std::path::Path`: the path
/// between double quotes, with the characters that need it escaped, inside
/// `Some(..)`.
pub uninterp spec fn optional_path_debug(path: Seq<char>) -> Seq<char>;

/// Formats `Some(path)` with `{:?}`, the text taken as a `std::path::Path`.
/// The output is a function of the characters of the path alone.
#[verifier::external_body]
pub(crate) fn debug_optional_path(path: &str) -> (text: String)
    ensures
        text@ == optional_path_debug(path@),
{
    format!("{:?}", Some(std::path::Path::new(path)))
}

/// Asks the filesystem, through `std::path::Path::is_dir`, whether the path
/// names a directory right now. Nothing is promised of the answer: it is
/// `false` as well when the path cannot be inspected, and it may differ from
/// one call to the next.
#[verifier::external_body]
pub(crate) fn is_directory(path: &str) -> (answer: bool) {
    std::path::Path::new(path).is_dir()
}

#[verifier::external_type_specification]
#[verifier::external_body]
pub struct ExIoError(std::io::Error);

/// Formats an error of the standard library's I/O through its `Display`
/// impl. Nothing is promised of the text: what it says is up to the error.
#[verifier::external_body]
pub(crate) fn display_io_error(error: &std::io::Error) -> (text: String) {
    error.to_string()
}

/// Asks for the soft limit on the stack size of this process, through
/// `nix::sys::resource::getrlimit` with `RLIMIT_STACK`. The result is absent
/// when the call fails. Nothing is promised of the value: it is whatever the
/// process was started with.
#[verifier::external_body]
pub(crate) fn soft_stack_limit() -> (limit: Option<u64>) {
    nix::sys::resource::getrlimit(nix::sys::resource::Resource::RLIMIT_STACK).map(
        |(soft, _)| soft,
    ).ok()
}

} // verus!
