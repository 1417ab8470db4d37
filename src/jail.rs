use std::collections::HashMap;
use vstd::prelude::*;
use vstd::std_specs::convert::IntoSpec;
use vstd::string::StringExecFns;

use crate::decimal::{decimal, decimal_digits};
use crate::mount::{mount_flag, mount_value, MountView, NSMount};
use crate::symlink::{LinkView, NSSymlink};

verus! {

/// A sandbox configuration, as the contracts see it.
pub struct JailView {
    pub mounts: Seq<MountView>,
    pub links: Seq<LinkView>,
    pub env: Map<String, String>,
    pub user: u64,
    pub group: u64,
}

/// The identity a fresh configuration runs as: an unprivileged user and group.
pub const DEFAULT_ID: u64 = 1000;

/// A fresh configuration: no mounts, links or variables, unprivileged identity.
pub open spec fn default_view() -> JailView {
    JailView {
        mounts: Seq::empty(),
        links: Seq::empty(),
        env: Map::empty(),
        user: DEFAULT_ID,
        group: DEFAULT_ID,
    }
}

/// The flag and value of each mount, in the order the mounts were attached.
pub open spec fn mount_args(ms: Seq<MountView>) -> Seq<Seq<char>> {
    Seq::new(
        2 * ms.len(),
        |i: int|
            if i % 2 == 0 {
                mount_flag(ms[i / 2])
            } else {
                mount_value(ms[i / 2])
            },
    )
}

/// The arguments before the mounts: user id, then group id.
pub open spec fn identity_args(user: u64, group: u64) -> Seq<Seq<char>> {
    seq!["--user"@, decimal_digits(user as nat), "--group"@, decimal_digits(group as nat)]
}

/// The arguments after the mounts: keep the caller's environment, then end
/// the launcher's own flags.
pub open spec fn closing_args() -> Seq<Seq<char>> {
    seq!["--keep_env"@, "--"@]
}

/// The full argument list handed to the launcher for a configuration.
pub open spec fn rendered_args(j: JailView) -> Seq<Seq<char>> {
    identity_args(j.user, j.group) + mount_args(j.mounts) + closing_args()
}

/// The launcher binary.
pub open spec fn launcher_path() -> Seq<char> {
    "/usr/bin/nsjail"@
}

/// The text of each argument.
pub open spec fn arg_views(args: Seq<String>) -> Seq<Seq<char>> {
    args.map_values(|a: String| a@)
}

/// A rendered launcher invocation: the binary, its arguments, and the variables
/// to add to its environment. The sandboxed command goes after `args`.
pub struct Invocation {
    pub program: String,
    pub args: Vec<String>,
    pub env: HashMap<String, String>,
}

/// A sandbox configuration: mounts applied in the order attached, symbolic
/// links, environment variables and the user and group to run as.
pub struct NSJail {
    mounts: Vec<NSMount>,
    links: Vec<NSSymlink>,
    env: HashMap<String, String>,
    user: u64,
    group: u64,
}

impl View for NSJail {
    type V = JailView;

    closed spec fn view(&self) -> JailView {
        JailView {
            mounts: self.mounts@.map_values(|m: NSMount| m@),
            links: self.links@.map_values(|l: NSSymlink| l@),
            env: self.env@,
            user: self.user,
            group: self.group,
        }
    }
}

impl NSJail {
    /// Renders the configuration into a launcher invocation, consuming it.
    /// Symbolic links are not handed to the launcher.
    pub fn into_invocation(self) -> (r: Invocation)
        ensures
            r.program@ == launcher_path(),
            arg_views(r.args@) == rendered_args(self@),
            r.env@ == self@.env,
    {
        let ghost ms = self@.mounts;
        let mut args: Vec<String> = Vec::new();
        args.push(String::from_str("--user"));
        args.push(decimal(self.user));
        args.push(String::from_str("--group"));
        args.push(decimal(self.group));
        assert(arg_views(args@) =~= identity_args(self.user, self.group) + mount_args(
            ms.take(0),
        ));
        let mut i: usize = 0;
        while i < self.mounts.len()
            invariant
                i <= self.mounts.len(),
                ms == self@.mounts,
                arg_views(args@) == identity_args(self.user, self.group) + mount_args(
                    ms.take(i as int),
                ),
            decreases self.mounts.len() - i,
        {
            let ghost before = args@;
            let (flag, value) = self.mounts[i].to_write_arg();
            assert(self.mounts@[i as int]@ == ms[i as int]);
            args.push(String::from_str(flag));
            args.push(value);
            assert(arg_views(args@) =~= arg_views(before) + seq![
                mount_flag(ms[i as int]),
                mount_value(ms[i as int]),
            ]);
            assert(ms.take(i + 1) == ms.take(i as int).push(ms[i as int]));
            assert(mount_args(ms.take(i + 1)) =~= mount_args(ms.take(i as int)) + seq![
                mount_flag(ms[i as int]),
                mount_value(ms[i as int]),
            ]);
            assert(arg_views(args@) =~= identity_args(self.user, self.group) + mount_args(
                ms.take(i + 1),
            ));
            i += 1;
        }
        args.push(String::from_str("--keep_env"));
        args.push(String::from_str("--"));
        assert(ms.take(i as int) == ms);
        assert(arg_views(args@) =~= rendered_args(self@));
        Invocation { program: String::from_str("/usr/bin/nsjail"), args, env: self.env }
    }

    /// Attaches a mount after those already attached.
    pub fn mount(&mut self, mount: NSMount) -> (r: &mut NSJail)
        ensures
            r@ == (JailView { mounts: old(self)@.mounts.push(mount@), ..old(self)@ }),
            *final(self) == *final(r),
    {
        self.mounts.push(mount);
        assert(self@.mounts =~= old(self)@.mounts.push(mount@));
        self
    }

    /// Attaches a symbolic link after those already attached.
    pub fn symlink<T: Into<NSSymlink>>(&mut self, link: T) -> (r: &mut NSJail)
        ensures
            r@ == (JailView { links: old(self)@.links.push(r@.links.last()), ..old(self)@ }),
            T::obeys_into_spec() ==> r@.links.last() == T::into_spec(link)@,
            *final(self) == *final(r),
    {
        let l: NSSymlink = link.into();
        self.links.push(l);
        assert(self@.links =~= old(self)@.links.push(l@));
        self
    }
}

impl Default for NSJail {
    fn default() -> (r: NSJail)
        ensures
            r@ == default_view(),
    {
        let r = NSJail {
            mounts: Vec::new(),
            links: Vec::new(),
            env: HashMap::new(),
            user: DEFAULT_ID,
            group: DEFAULT_ID,
        };
        assert(r@.mounts =~= Seq::empty());
        assert(r@.links =~= Seq::empty());
        r
    }
}

} // verus!
