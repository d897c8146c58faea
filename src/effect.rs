//! Effects that a task may ask for, and a model of the filesystem they act on.
use vstd::prelude::*;

verus! {

/// One entry of the modelled filesystem.
pub enum Node {
    Dir,
    File(Seq<u8>),
}

/// The filesystem as a map from path to entry.
pub type FsState = Map<Seq<char>, Node>;

/// A side effect on the filesystem or the process environment, to be carried
/// out by whoever drives the library.
pub enum Effect {
    CreateDirAll { path: String },
    CopyFile { src: String, dest: String },
    Rename { src: String, dest: String },
    RemoveFile { path: String },
    RunShell { command: String },
}

/// The mathematical form of an `Effect`.
pub enum EffectSpec {
    CreateDirAll(Seq<char>),
    CopyFile(Seq<char>, Seq<char>),
    Rename(Seq<char>, Seq<char>),
    RemoveFile(Seq<char>),
    RunShell(Seq<char>),
}

impl View for Effect {
    type V = EffectSpec;

    open spec fn view(&self) -> EffectSpec {
        match self {
            Effect::CreateDirAll { path } => EffectSpec::CreateDirAll(path@),
            Effect::CopyFile { src, dest } => EffectSpec::CopyFile(src@, dest@),
            Effect::Rename { src, dest } => EffectSpec::Rename(src@, dest@),
            Effect::RemoveFile { path } => EffectSpec::RemoveFile(path@),
            Effect::RunShell { command } => EffectSpec::RunShell(command@),
        }
    }
}

/// The proper ancestors of a path: the non-empty prefixes that end just
/// before a `/`.
pub open spec fn ancestors(p: Seq<char>) -> Set<Seq<char>> {
    Set::new(|q: Seq<char>| exists|i: int| 0 < i < p.len() && p[i] == '/' && q == p.subrange(0, i))
}

/// A path together with its proper ancestors.
pub open spec fn path_chain(p: Seq<char>) -> Set<Seq<char>> {
    ancestors(p).insert(p)
}

/// Every proper ancestor of `p` exists as a directory.
pub open spec fn parents_exist(fs: FsState, p: Seq<char>) -> bool {
    forall|q: Seq<char>| #[trigger] ancestors(p).contains(q) ==> fs.contains_key(q) && fs[q] is Dir
}

/// Whether each path exists in `fs`, in the order given.
pub open spec fn probe(fs: FsState, paths: Seq<Seq<char>>) -> Seq<bool> {
    paths.map_values(|p: Seq<char>| fs.contains_key(p))
}

/// The views of a sequence of strings.
pub open spec fn views_of(v: Seq<String>) -> Seq<Seq<char>> {
    v.map_values(|s: String| s@)
}

impl EffectSpec {
    /// The effect acts on the filesystem alone; a shell command may act on
    /// anything and lies outside the model.
    pub open spec fn is_fs_effect(self) -> bool {
        !(self is RunShell)
    }

    /// The states in which the effect completes without error.
    pub open spec fn succeeds_on(self, fs: FsState) -> bool {
        match self {
            EffectSpec::CreateDirAll(p) => forall|q: Seq<char>|
                #[trigger] path_chain(p).contains(q) && fs.contains_key(q) ==> fs[q] is Dir,
            EffectSpec::CopyFile(s, d) => {
                &&& fs.contains_key(s) && fs[s] is File
                &&& !(fs.contains_key(d) && fs[d] is Dir)
                &&& parents_exist(fs, d)
            },
            EffectSpec::Rename(s, d) => fs.contains_key(s) && !fs.contains_key(d) && parents_exist(
                fs,
                d,
            ),
            EffectSpec::RemoveFile(p) => fs.contains_key(p) && fs[p] is File,
            EffectSpec::RunShell(_) => true,
        }
    }

    /// The state after the effect completes on `fs`; `None` for a shell
    /// command, whose effect the model does not describe.
    pub open spec fn applied_to(self, fs: FsState) -> Option<FsState> {
        match self {
            EffectSpec::CreateDirAll(p) => Some(
                Map::new(
                    |q: Seq<char>| fs.contains_key(q) || path_chain(p).contains(q),
                    |q: Seq<char>|
                        if fs.contains_key(q) {
                            fs[q]
                        } else {
                            Node::Dir
                        },
                ),
            ),
            EffectSpec::CopyFile(s, d) => Some(fs.insert(d, fs[s])),
            EffectSpec::Rename(s, d) => Some(fs.remove(s).insert(d, fs[s])),
            EffectSpec::RemoveFile(p) => Some(fs.remove(p)),
            EffectSpec::RunShell(_) => None,
        }
    }
}

} // verus!
