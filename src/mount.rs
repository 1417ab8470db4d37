use vstd::prelude::*;
use vstd::string::StringExecFns;

verus! {

/// What a mount directive mounts, as the contracts see it.
pub enum MountTypeView {
    BindMount { src: Seq<char>, dest: Seq<char> },
    TmpFs { dest: Seq<char> },
}

/// A mount directive, as the contracts see it.
pub struct MountView {
    pub kind: MountTypeView,
    pub readwrite: bool,
    pub mandatory: bool,
}

/// A writable, mandatory bind mount of `src` at `dest`.
pub open spec fn bind_view(src: Seq<char>, dest: Seq<char>) -> MountView {
    MountView { kind: MountTypeView::BindMount { src, dest }, readwrite: true, mandatory: true }
}

/// A read-only, mandatory bind mount of `src` at `dest`.
pub open spec fn readonly_view(src: Seq<char>, dest: Seq<char>) -> MountView {
    MountView { kind: MountTypeView::BindMount { src, dest }, readwrite: false, mandatory: true }
}

/// A writable, mandatory in-memory file system at `dest`.
pub open spec fn temp_view(dest: Seq<char>) -> MountView {
    MountView { kind: MountTypeView::TmpFs { dest }, readwrite: true, mandatory: true }
}

/// The launcher flag that introduces a mount.
pub open spec fn mount_flag(m: MountView) -> Seq<char> {
    match m.kind {
        MountTypeView::BindMount { .. } => if m.readwrite {
            "--bindmount"@
        } else {
            "--bindmount_ro"@
        },
        MountTypeView::TmpFs { .. } => "-m"@,
    }
}

/// The value that follows the flag of a mount: `src:dest` for a bind mount,
/// `none:dest:tmpfs:` (an empty option field last) for an in-memory file system.
pub open spec fn mount_value(m: MountView) -> Seq<char> {
    match m.kind {
        MountTypeView::BindMount { src, dest } => src + ":"@ + dest,
        MountTypeView::TmpFs { dest } => "none:"@ + dest + ":tmpfs:"@,
    }
}

/// What a mount directive mounts.
#[derive(Debug)]
pub enum NSMountType {
    BindMount { src: String, dest: String },
    TmpFs { dest: String },
}

impl View for NSMountType {
    type V = MountTypeView;

    open spec fn view(&self) -> MountTypeView {
        match self {
            NSMountType::BindMount { src, dest } => MountTypeView::BindMount {
                src: src@,
                dest: dest@,
            },
            NSMountType::TmpFs { dest } => MountTypeView::TmpFs { dest: dest@ },
        }
    }
}

/// One mount directive for the launcher: a bind mount or an in-memory file
/// system, with its writable and mandatory flags.
#[derive(Debug)]
pub struct NSMount {
    kind: NSMountType,
    readwrite: bool,
    mandatory: bool,
}

impl View for NSMount {
    type V = MountView;

    closed spec fn view(&self) -> MountView {
        MountView { kind: self.kind@, readwrite: self.readwrite, mandatory: self.mandatory }
    }
}

impl NSMount {
    /// Creates a new bind mount with `readwrite` set to `false`.
    pub fn readonly(src: &str, dest: &str) -> (r: NSMount)
        ensures
            r@ == readonly_view(src@, dest@),
    {
        let mut s = Self::bind(src, dest);
        s.readwrite = false;
        s
    }

    /// Creates a new bind mount that is both writable and mandatory.
    pub fn bind(src: &str, dest: &str) -> (r: NSMount)
        ensures
            r@ == bind_view(src@, dest@),
    {
        NSMount {
            kind: NSMountType::BindMount { src: src.to_owned(), dest: dest.to_owned() },
            readwrite: true,
            mandatory: true,
        }
    }

    /// Creates a new in-memory file system at `dest`, writable and mandatory.
    pub fn temp(dest: &str) -> (r: NSMount)
        ensures
            r@ == temp_view(dest@),
    {
        NSMount { kind: NSMountType::TmpFs { dest: dest.to_owned() }, readwrite: true, mandatory: true }
    }

    /// Marks the mount read-only; returns it for chaining.
    pub fn make_readonly(&mut self) -> (r: &mut NSMount)
        ensures
            r@ == (MountView { readwrite: false, ..old(self)@ }),
            *final(self) == *final(r),
    {
        self.readwrite = false;
        self
    }

    /// Marks the mount writable; returns it for chaining.
    pub fn make_readwrite(&mut self) -> (r: &mut NSMount)
        ensures
            r@ == (MountView { readwrite: true, ..old(self)@ }),
            *final(self) == *final(r),
    {
        self.readwrite = true;
        self
    }

    /// Marks the mount as one whose failure aborts startup; returns it for chaining.
    pub fn mandatory(&mut self) -> (r: &mut NSMount)
        ensures
            r@ == (MountView { mandatory: true, ..old(self)@ }),
            *final(self) == *final(r),
    {
        self.mandatory = true;
        self
    }

    /// Marks the mount as best-effort; returns it for chaining.
    pub fn not_mandatory(&mut self) -> (r: &mut NSMount)
        ensures
            r@ == (MountView { mandatory: false, ..old(self)@ }),
            *final(self) == *final(r),
    {
        self.mandatory = false;
        self
    }

    /// What this directive mounts.
    pub fn kind(&self) -> (r: &NSMountType)
        ensures
            r@ == self@.kind,
    {
        &self.kind
    }

    /// Whether the mount is writable.
    pub fn is_readwrite(&self) -> (r: bool)
        ensures
            r == self@.readwrite,
    {
        self.readwrite
    }

    /// Whether a failure of this mount aborts startup.
    pub fn is_mandatory(&self) -> (r: bool)
        ensures
            r == self@.mandatory,
    {
        self.mandatory
    }

    /// The flag and value that hand this mount to the launcher. Whether the
    /// mount is mandatory is not part of them.
    pub fn to_write_arg(&self) -> (r: (&'static str, String))
        ensures
            r.0@ == mount_flag(self@),
            r.1@ == mount_value(self@),
    {
        match &self.kind {
            NSMountType::BindMount { src, dest } => {
                let mut map = src.clone();
                map.append(":");
                map.append(dest.as_str());
                let arg = if self.readwrite {
                    "--bindmount"
                } else {
                    "--bindmount_ro"
                };
                (arg, map)
            },
            NSMountType::TmpFs { dest } => {
                let mut map = String::from_str("none:");
                map.append(dest.as_str());
                map.append(":tmpfs:");
                ("-m", map)
            },
        }
    }
}

} // verus!
