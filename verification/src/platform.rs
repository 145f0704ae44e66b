//! Build-time facts about the shell: the kind of target and the build profile.

use vstd::prelude::*;

verus! {

/// The family of operating systems the shell is built for.
#[derive(Clone, Copy, PartialEq, Eq, Debug, Structural)]
pub enum Target {
    /// A desktop operating system, where several copies of a program can be
    /// started side by side.
    Desktop,
    /// A mobile operating system, which manages application instances itself.
    Mobile,
}

/// The build profile the shell was compiled with.
#[derive(Clone, Copy, PartialEq, Eq, Debug, Structural)]
pub enum Profile {
    /// A development build.
    Debug,
    /// An optimised build for distribution.
    Release,
}

/// What is fixed about a shell before it starts. The host reads it once at
/// startup and hands it to every policy that depends on it.
#[derive(Clone, Copy, PartialEq, Eq, Debug, Structural)]
pub struct BuildConfig {
    /// The family of operating systems the shell runs on.
    pub target: Target,
    /// The profile the shell was compiled with.
    pub profile: Profile,
}

/// The target family of the operating system named `os`: Android and iOS are
/// mobile, every other system counts as a desktop.
pub open spec fn target_of(os: Seq<char>) -> Target {
    if os == "android"@ || os == "ios"@ {
        Target::Mobile
    } else {
        Target::Desktop
    }
}

/// The profile of a build with or without debug assertions.
pub open spec fn profile_of(debug_assertions: bool) -> Profile {
    if debug_assertions {
        Profile::Debug
    } else {
        Profile::Release
    }
}

impl Target {
    /// The target family of the operating system with the name `os`, as the
    /// compiler spells it (`"linux"`, `"android"`, ...).
    pub fn for_os(os: &str) -> (target: Target)
        ensures
            target == target_of(os@),
    {
        if same_text(os, "android") || same_text(os, "ios") {
            Target::Mobile
        } else {
            Target::Desktop
        }
    }
}

impl Profile {
    /// The profile of a build in which debug assertions are switched on or off.
    pub fn for_build(debug_assertions: bool) -> (profile: Profile)
        ensures
            profile == profile_of(debug_assertions),
    {
        if debug_assertions {
            Profile::Debug
        } else {
            Profile::Release
        }
    }
}

/// Whether `left` and `right` hold the same characters.
fn same_text(left: &str, right: &str) -> (same: bool)
    ensures
        same == (left@ == right@),
{
    let len = left.unicode_len();
    if right.unicode_len() != len {
        return false;
    }
    let mut index: usize = 0;
    while index < len
        invariant
            index <= len,
            len == left@.len(),
            len == right@.len(),
            forall|i: int| 0 <= i < index ==> left@[i] == right@[i],
        decreases len - index,
    {
        if left.get_char(index) != right.get_char(index) {
            return false;
        }
        index += 1;
    }
    assert(left@ =~= right@);
    true
}

} // verus!
