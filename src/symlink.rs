use vstd::prelude::*;

verus! {

/// A symbolic link to create inside the sandbox, as the contracts see it.
pub struct LinkView {
    pub src: Seq<char>,
    pub dest: Seq<char>,
}

/// One symbolic link directive: `src` is linked at `dest`.
#[derive(Debug)]
pub struct NSSymlink {
    src: String,
    dest: String,
}

impl View for NSSymlink {
    type V = LinkView;

    closed spec fn view(&self) -> LinkView {
        LinkView { src: self.src@, dest: self.dest@ }
    }
}

impl NSSymlink {
    /// Links `src` at `dest`.
    pub fn new(src: &str, dest: &str) -> (r: NSSymlink)
        ensures
            r@ == (LinkView { src: src@, dest: dest@ }),
    {
        NSSymlink { src: src.to_owned(), dest: dest.to_owned() }
    }

    /// The path the link points to.
    pub fn src(&self) -> (r: &str)
        ensures
            r@ == self@.src,
    {
        self.src.as_str()
    }

    /// Where the link is created.
    pub fn dest(&self) -> (r: &str)
        ensures
            r@ == self@.dest,
    {
        self.dest.as_str()
    }
}

/// Takes the pair as `(src, dest)`.
impl From<(String, String)> for NSSymlink {
    fn from(pair: (String, String)) -> (r: NSSymlink) {
        NSSymlink { src: pair.0, dest: pair.1 }
    }
}

impl vstd::std_specs::convert::FromSpecImpl<(String, String)> for NSSymlink {
    open spec fn obeys_from_spec() -> bool {
        true
    }

    closed spec fn from_spec(pair: (String, String)) -> NSSymlink {
        NSSymlink { src: pair.0, dest: pair.1 }
    }
}

/// Converting a `(src, dest)` pair links `src` at `dest`.
pub proof fn lemma_link_from_pair(pair: (String, String))
    ensures
        <NSSymlink as vstd::std_specs::convert::FromSpec<(String, String)>>::obeys_from_spec(),
        <NSSymlink as vstd::std_specs::convert::FromSpec<(String, String)>>::from_spec(pair)@
            == (LinkView { src: pair.0@, dest: pair.1@ }),
{
}

} // verus!
