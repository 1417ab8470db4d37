use vstd::prelude::*;

use crate::decimal::{decimal_digits, lemma_decimal_digits_are_digits};
use crate::jail::{closing_args, identity_args, mount_args, rendered_args, JailView, DEFAULT_ID};
use crate::mount::{bind_view, mount_flag, mount_value, readonly_view, temp_view, MountTypeView};

verus! {

/// Mounts are rendered in attachment order: the `n`-th attached mount gives
/// the `n`-th flag and value pair, right after the four identity arguments.
pub proof fn lemma_mount_order(j: JailView, n: int)
    requires
        0 <= n < j.mounts.len(),
    ensures
        rendered_args(j)[4 + 2 * n] == mount_flag(j.mounts[n]),
        rendered_args(j)[5 + 2 * n] == mount_value(j.mounts[n]),
{
    let ids = identity_args(j.user, j.group);
    let ma = mount_args(j.mounts);
    assert(ids.len() == 4);
    assert((ids + ma)[4 + 2 * n] == ma[2 * n]);
    assert((ids + ma)[5 + 2 * n] == ma[2 * n + 1]);
    assert((2 * n) / 2 == n);
    assert((2 * n + 1) / 2 == n);
}

/// A read-only bind mount of `a` at `b` renders as `--bindmount_ro a:b`, a
/// writable one as `--bindmount a:b`.
pub proof fn lemma_bind_renders(a: Seq<char>, b: Seq<char>)
    ensures
        mount_flag(readonly_view(a, b)) == "--bindmount_ro"@,
        mount_value(readonly_view(a, b)) == a + ":"@ + b,
        mount_flag(bind_view(a, b)) == "--bindmount"@,
        mount_value(bind_view(a, b)) == a + ":"@ + b,
{
}

/// An in-memory file system at `d` renders as `-m none:d:tmpfs:`, whose last
/// field, after the final colon, is empty.
pub proof fn lemma_temp_renders(d: Seq<char>)
    ensures
        mount_flag(temp_view(d)) == "-m"@,
        mount_value(temp_view(d)) == "none:"@ + d + ":tmpfs:"@,
        mount_value(temp_view(d)).last() == ':',
{
    reveal_strlit(":tmpfs:");
}

/// A configuration that runs as the default identity starts its arguments
/// with `--user 1000 --group 1000`.
pub proof fn lemma_default_identity(j: JailView)
    requires
        j.user == DEFAULT_ID,
        j.group == DEFAULT_ID,
    ensures
        rendered_args(j).take(4) == seq!["--user"@, "1000"@, "--group"@, "1000"@],
{
    reveal_strlit("1000");
    reveal_with_fuel(decimal_digits, 5);
    assert(decimal_digits(1000) =~= "1000"@);
    assert(rendered_args(j).take(4) =~= seq!["--user"@, "1000"@, "--group"@, "1000"@]);
}

/// The terminator `--` is the last argument and appears nowhere else, so it
/// follows every mount argument and precedes whatever the caller appends.
pub proof fn lemma_terminator_once(j: JailView)
    ensures
        rendered_args(j).last() == "--"@,
        forall|i: int| 0 <= i < rendered_args(j).len() - 1 ==> #[trigger] rendered_args(j)[i] != "--"@,
{
    let a = rendered_args(j);
    let ids = identity_args(j.user, j.group);
    let ma = mount_args(j.mounts);
    reveal_strlit("--");
    reveal_strlit("--user");
    reveal_strlit("--group");
    reveal_strlit("--keep_env");
    reveal_strlit("--bindmount");
    reveal_strlit("--bindmount_ro");
    reveal_strlit("-m");
    reveal_strlit(":");
    reveal_strlit("none:");
    lemma_decimal_digits_are_digits(j.user as nat);
    lemma_decimal_digits_are_digits(j.group as nat);
    assert forall|i: int| 0 <= i < a.len() - 1 implies #[trigger] a[i] != "--"@ by {
        if i < 4 {
            assert(a[i] == ids[i]);
            if i == 1 || i == 3 {
                assert(a[i][0] != '-');
            } else {
                assert(a[i].len() != 2);
            }
            assert(a[i] != "--"@);
        } else if i < 4 + ma.len() {
            let m = j.mounts[(i - 4) / 2];
            assert(a[i] == ma[i - 4]);
            if (i - 4) % 2 == 1 {
                match m.kind {
                    MountTypeView::BindMount { src, dest } => {
                        let v = src + ":"@ + dest;
                        assert(v[src.len() as int] == ':');
                        if v.len() == 2 {
                            assert(v[src.len() as int] != "--"@[src.len() as int]);
                        }
                    },
                    MountTypeView::TmpFs { dest } => {
                        assert(("none:"@ + dest + ":tmpfs:"@)[0] == 'n');
                    },
                }
            } else {
                assert(a[i] == mount_flag(m));
                assert(a[i].len() != 2 || a[i][1] == 'm');
            }
            assert(a[i] != "--"@);
        } else {
            assert(a[i] == closing_args()[i - 4 - ma.len()]);
            assert(a[i] == "--keep_env"@);
            assert(a[i] != "--"@);
        }
    }
}

/// The arguments depend on the mounts and the identity alone: two
/// configurations that agree on those render the same arguments, whatever
/// their links and environment.
pub proof fn lemma_render_determined(j1: JailView, j2: JailView)
    requires
        j1.mounts == j2.mounts,
        j1.user == j2.user,
        j1.group == j2.group,
    ensures
        rendered_args(j1) == rendered_args(j2),
{
}

} // verus!
