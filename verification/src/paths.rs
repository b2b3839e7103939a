//! Finding the working directory of the backend.
//!
//! The host offers up to three directories, in a fixed order: the packaged
//! resource directory, a development directory derived from the supervisor's
//! own executable path, and the current working directory. The first one that
//! holds the backend entry file becomes the working directory.

use crate::text::texts;
use vstd::prelude::*;

verus! {

/// The name of the backend entry file.
pub open spec fn spec_entry_file() -> Seq<char> {
    "app.py"@
}

/// The name of the backend entry file.
pub fn entry_file() -> (s: &'static str)
    ensures
        s@ == spec_entry_file(),
{
    "app.py"
}

/// A path taken apart: what anchors it (a root or a drive prefix, empty for a
/// relative path) and the names below the anchor, outermost first.
#[derive(Clone, Debug, PartialEq, Eq)]
pub struct SplitPath {
    pub anchor: String,
    pub names: Vec<String>,
}

pub struct SplitPathView {
    pub anchor: Seq<char>,
    pub names: Seq<Seq<char>>,
}

impl View for SplitPath {
    type V = SplitPathView;

    open spec fn view(&self) -> SplitPathView {
        SplitPathView { anchor: self.anchor@, names: texts(self.names@) }
    }
}

/// The directory that holds `p`: `p` without its last name. A path that is
/// only an anchor, or empty, has none.
pub open spec fn spec_parent(p: SplitPathView) -> Option<SplitPathView> {
    if p.names.len() == 0 {
        None
    } else {
        Some(SplitPathView { anchor: p.anchor, names: p.names.drop_last() })
    }
}

/// The directory `levels` steps above `p`, if the path is that deep.
pub open spec fn spec_ancestor(p: SplitPathView, levels: nat) -> Option<SplitPathView>
    decreases levels,
{
    if levels == 0 {
        Some(p)
    } else {
        match spec_parent(p) {
            None => None,
            Some(q) => spec_ancestor(q, (levels - 1) as nat),
        }
    }
}

/// A directory name under which the build tools put the executable.
pub open spec fn is_build_output_name(name: Seq<char>) -> bool {
    name == "debug"@ || name == "release"@
}

/// The last name of `p` is a build-output directory name.
pub open spec fn in_build_output(p: SplitPathView) -> bool {
    p.names.len() > 0 && is_build_output_name(p.names.last())
}

/// How many directories lie between a build-output directory and the project
/// root that holds the backend.
pub open spec fn spec_levels_to_root() -> nat {
    3
}

/// The development directory that belongs to the executable at `exe`: the
/// project root three levels above the executable's directory when that
/// directory is a build-output directory, the executable's directory itself
/// otherwise.
pub open spec fn spec_dev_directory(exe: SplitPathView) -> Option<SplitPathView> {
    match spec_parent(exe) {
        None => None,
        Some(parent) => if in_build_output(parent) {
            spec_ancestor(parent, spec_levels_to_root())
        } else {
            Some(parent)
        },
    }
}

/// The view of an optional path.
pub open spec fn opt_path_view(p: Option<SplitPath>) -> Option<SplitPathView> {
    match p {
        None => None,
        Some(q) => Some(q@),
    }
}

/// Whether `name` is a build-output directory name.
fn is_build_output(name: &String) -> (r: bool)
    ensures
        r == is_build_output_name(name@),
{
    let debug = String::from_str("debug");
    let release = String::from_str("release");
    *name == debug || *name == release
}

impl SplitPath {
    /// The first `keep` names of this path under the same anchor.
    fn prefix(&self, keep: usize) -> (r: SplitPath)
        requires
            keep <= self.names.len(),
        ensures
            r@.anchor == self@.anchor,
            r@.names == self@.names.take(keep as int),
    {
        let mut names: Vec<String> = Vec::new();
        let mut i: usize = 0;
        while i < keep
            invariant
                i <= keep <= self.names.len(),
                names.len() == i,
                forall|j: int| 0 <= j < i ==> names@[j]@ == self.names@[j]@,
            decreases keep - i,
        {
            names.push(self.names[i].clone());
            i = i + 1;
        }
        let r = SplitPath { anchor: self.anchor.clone(), names };
        assert(r@.names =~= self@.names.take(keep as int));
        r
    }

    /// The directory that holds this path.
    pub fn parent(&self) -> (r: Option<SplitPath>)
        ensures
            opt_path_view(r) == spec_parent(self@),
    {
        let n = self.names.len();
        if n == 0 {
            None
        } else {
            let r = self.prefix(n - 1);
            assert(r@.names =~= self@.names.drop_last());
            Some(r)
        }
    }
}

/// Going up `levels` directories removes that many names from the end of the
/// path, and is possible exactly when the path has that many.
pub proof fn lemma_ancestor_drops_names(p: SplitPathView, levels: nat)
    ensures
        spec_ancestor(p, levels) == if levels <= p.names.len() {
            Some(SplitPathView { anchor: p.anchor, names: p.names.take(p.names.len() - levels) })
        } else {
            None
        },
    decreases levels,
{
    if levels == 0 {
        assert(p.names.take(p.names.len() as int) =~= p.names);
    } else if p.names.len() > 0 {
        let q = spec_parent(p)->Some_0;
        lemma_ancestor_drops_names(q, (levels - 1) as nat);
        if levels <= p.names.len() {
            assert(q.names.take(q.names.len() - (levels - 1)) =~= p.names.take(
                p.names.len() - levels,
            ));
        }
    }
}

/// Derives the development directory from the path of the supervisor's own
/// executable.
pub fn dev_directory(exe: &SplitPath) -> (r: Option<SplitPath>)
    ensures
        opt_path_view(r) == spec_dev_directory(exe@),
{
    let n = exe.names.len();
    if n == 0 {
        return None;
    }
    let ghost parent = spec_parent(exe@)->Some_0;
    proof {
        assert(parent.names =~= exe@.names.take(n - 1));
        lemma_ancestor_drops_names(parent, 3);
    }
    if n >= 2 && is_build_output(&exe.names[n - 2]) {
        assert(parent.names.last() == exe.names@[n - 2]@);
        if n >= 4 {
            let r = exe.prefix(n - 4);
            assert(parent.names.take(parent.names.len() - 3) =~= exe@.names.take(n - 4));
            Some(r)
        } else {
            None
        }
    } else {
        assert(n >= 2 ==> parent.names.last() == exe.names@[n - 2]@);
        let r = exe.prefix(n - 1);
        Some(r)
    }
}

/// One directory that the host offers, with what was found by looking for the
/// entry file in it.
#[derive(Clone, Debug, PartialEq, Eq)]
pub struct Candidate {
    /// The directory, as the host writes it.
    pub dir: String,
    /// The path at which the entry file was looked for.
    pub entry_path: String,
    /// Whether the entry file is there.
    pub has_entry: bool,
}

pub struct CandidateView {
    pub dir: Seq<char>,
    pub entry_path: Seq<char>,
    pub has_entry: bool,
}

impl View for Candidate {
    type V = CandidateView;

    open spec fn view(&self) -> CandidateView {
        CandidateView { dir: self.dir@, entry_path: self.entry_path@, has_entry: self.has_entry }
    }
}

/// The views of a sequence of candidates.
pub open spec fn candidate_views(chain: Seq<Candidate>) -> Seq<CandidateView> {
    Seq::new(chain.len(), |i: int| chain[i]@)
}

/// What the host found: each of the three directories, where it could name one.
#[derive(Clone, Debug, PartialEq, Eq)]
pub struct Layout {
    pub packaged: Option<Candidate>,
    pub development: Option<Candidate>,
    pub current_dir: Option<Candidate>,
}

/// The candidate, if there is one, as a sequence of one or none.
pub open spec fn opt_chain(c: Option<Candidate>) -> Seq<CandidateView> {
    match c {
        None => Seq::empty(),
        Some(x) => seq![x@],
    }
}

impl Layout {
    /// The candidates of this layout in the order in which they are tried.
    pub open spec fn spec_chain(&self) -> Seq<CandidateView> {
        opt_chain(self.packaged) + opt_chain(self.development) + opt_chain(self.current_dir)
    }

    /// The candidates of this layout in the order in which they are tried.
    pub fn into_chain(self) -> (chain: Vec<Candidate>)
        ensures
            candidate_views(chain@) == self.spec_chain(),
    {
        let mut chain: Vec<Candidate> = Vec::new();
        if let Some(c) = self.packaged {
            chain.push(c);
        }
        assert(candidate_views(chain@) =~= opt_chain(self.packaged));
        if let Some(c) = self.development {
            chain.push(c);
        }
        assert(candidate_views(chain@) =~= opt_chain(self.packaged) + opt_chain(
            self.development,
        ));
        if let Some(c) = self.current_dir {
            chain.push(c);
        }
        assert(candidate_views(chain@) =~= self.spec_chain());
        chain
    }
}

/// Which of the host's directories a working directory was taken from.
#[derive(Clone, Copy, Debug, PartialEq, Eq, Structural)]
pub enum Source {
    Packaged,
    Development,
    CurrentDir,
}

/// The directory in which the backend runs.
#[derive(Clone, Debug, PartialEq, Eq)]
pub struct WorkingDirectory {
    /// The directory, as the host writes it.
    pub dir: String,
    /// The candidate that it was taken from.
    pub source: Source,
}

/// No candidate holds the entry file.
#[derive(Clone, Debug, PartialEq, Eq)]
pub struct ResolutionError {
    /// The paths at which the entry file was looked for, in order.
    pub checked: Vec<String>,
}

/// `i` is the place of the first candidate in `chain` that holds the entry file.
pub open spec fn is_first_hit(chain: Seq<CandidateView>, i: int) -> bool {
    &&& 0 <= i < chain.len()
    &&& chain[i].has_entry
    &&& forall|j: int| 0 <= j < i ==> !chain[j].has_entry
}

/// Some candidate in `chain` holds the entry file.
pub open spec fn has_hit(chain: Seq<CandidateView>) -> bool {
    exists|i: int| 0 <= i < chain.len() && chain[i].has_entry
}

/// The entry paths of all candidates of `chain`, in order.
pub open spec fn entry_paths(chain: Seq<CandidateView>) -> Seq<Seq<char>> {
    Seq::new(chain.len(), |i: int| chain[i].entry_path)
}

/// What the text of a resolution error says, given the paths that were checked.
pub open spec fn spec_resolution_message(checked: Seq<Seq<char>>) -> Seq<char> {
    if checked.len() == 0 {
        "app.py not found: no directory to look in"@
    } else {
        "app.py not found at: "@ + checked.last()
    }
}

impl ResolutionError {
    /// A description of the failure that names the last path checked.
    pub fn message(&self) -> (m: String)
        ensures
            m@ == spec_resolution_message(texts(self.checked@)),
    {
        let n = self.checked.len();
        if n == 0 {
            String::from_str("app.py not found: no directory to look in")
        } else {
            let mut m = String::from_str("app.py not found at: ");
            m.append(self.checked[n - 1].as_str());
            m
        }
    }
}

/// The candidate is there and holds the entry file.
pub open spec fn holds_entry(c: Option<Candidate>) -> bool {
    c matches Some(x) && x.has_entry
}

/// The candidate that becomes the working directory: the first of packaged,
/// development and current directory that holds the entry file.
pub open spec fn spec_choice(layout: Layout) -> Option<(Source, Seq<char>)> {
    if holds_entry(layout.packaged) {
        Some((Source::Packaged, layout.packaged->Some_0.dir@))
    } else if holds_entry(layout.development) {
        Some((Source::Development, layout.development->Some_0.dir@))
    } else if holds_entry(layout.current_dir) {
        Some((Source::CurrentDir, layout.current_dir->Some_0.dir@))
    } else {
        None
    }
}

/// The place that the candidate taken from `source` has in the chain of `layout`.
pub open spec fn spec_place(layout: Layout, source: Source) -> int {
    match source {
        Source::Packaged => 0,
        Source::Development => opt_chain(layout.packaged).len() as int,
        Source::CurrentDir => (opt_chain(layout.packaged).len() + opt_chain(
            layout.development,
        ).len()) as int,
    }
}

/// Chooses the working directory among the candidates that the host offers.
pub struct PathResolver {}

impl PathResolver {
    /// Returns the place of the first candidate of `chain` that holds the entry
    /// file, and fails, naming every path checked, when none does.
    pub fn resolve_chain(chain: &Vec<Candidate>) -> (r: Result<usize, ResolutionError>)
        ensures
            r is Ok <==> has_hit(candidate_views(chain@)),
            r matches Ok(i) ==> is_first_hit(candidate_views(chain@), i as int),
            r matches Err(e) ==> texts(e.checked@) == entry_paths(candidate_views(chain@)),
    {
        let ghost views = candidate_views(chain@);
        let mut checked: Vec<String> = Vec::new();
        let mut i: usize = 0;
        while i < chain.len()
            invariant
                i <= chain.len(),
                views == candidate_views(chain@),
                checked.len() == i,
                forall|j: int| 0 <= j < i ==> !views[j].has_entry,
                forall|j: int| 0 <= j < i ==> checked@[j]@ == views[j].entry_path,
            decreases chain.len() - i,
        {
            if chain[i].has_entry {
                assert(views[i as int].has_entry);
                return Ok(i);
            }
            checked.push(chain[i].entry_path.clone());
            i = i + 1;
        }
        assert(texts(checked@) =~= entry_paths(views));
        Err(ResolutionError { checked })
    }

    /// Returns the first of the packaged, the development and the current
    /// directory that holds the entry file, and fails, naming every path
    /// checked, when none of them does.
    pub fn resolve(layout: &Layout) -> (r: Result<WorkingDirectory, ResolutionError>)
        ensures
            r matches Ok(w) ==> spec_choice(*layout) == Some((w.source, w.dir@)),
            r matches Err(e) ==> spec_choice(*layout) is None && texts(e.checked@) == entry_paths(
                layout.spec_chain(),
            ),
    {
        let mut checked: Vec<String> = Vec::new();
        match &layout.packaged {
            Some(c) => {
                if c.has_entry {
                    return Ok(WorkingDirectory { dir: c.dir.clone(), source: Source::Packaged });
                }
                checked.push(c.entry_path.clone());
            },
            None => {},
        }
        assert(texts(checked@) =~= entry_paths(opt_chain(layout.packaged)));
        match &layout.development {
            Some(c) => {
                if c.has_entry {
                    return Ok(
                        WorkingDirectory { dir: c.dir.clone(), source: Source::Development },
                    );
                }
                checked.push(c.entry_path.clone());
            },
            None => {},
        }
        assert(texts(checked@) =~= entry_paths(
            opt_chain(layout.packaged) + opt_chain(layout.development),
        ));
        match &layout.current_dir {
            Some(c) => {
                if c.has_entry {
                    return Ok(WorkingDirectory { dir: c.dir.clone(), source: Source::CurrentDir });
                }
                checked.push(c.entry_path.clone());
            },
            None => {},
        }
        assert(texts(checked@) =~= entry_paths(layout.spec_chain()));
        Err(ResolutionError { checked })
    }
}

/// Whatever the layout, resolution chooses a directory exactly when some
/// candidate holds the entry file, and the directory chosen is that of the
/// first candidate, in the order packaged, development, current directory,
/// that holds it: every candidate before it lacks the file.
pub proof fn lemma_choice_is_first_hit(layout: Layout)
    ensures
        spec_choice(layout) is Some <==> has_hit(layout.spec_chain()),
        spec_choice(layout) matches Some((source, dir)) ==> {
            let i = spec_place(layout, source);
            is_first_hit(layout.spec_chain(), i) && layout.spec_chain()[i].dir == dir
        },
{
    let chain = layout.spec_chain();
    let a = opt_chain(layout.packaged);
    let b = opt_chain(layout.development);
    let c = opt_chain(layout.current_dir);
    assert(chain =~= a + b + c);
    assert(forall|i: int| 0 <= i < a.len() ==> chain[i] == a[i]);
    assert(forall|i: int| a.len() <= i < a.len() + b.len() ==> chain[i] == b[i - a.len()]);
    assert(forall|i: int|
        a.len() + b.len() <= i < chain.len() ==> chain[i] == c[i - a.len() - b.len()]);
    if holds_entry(layout.packaged) {
        assert(chain[0].has_entry);
    } else if holds_entry(layout.development) {
        assert(chain[a.len() as int].has_entry);
    } else if holds_entry(layout.current_dir) {
        assert(chain[(a.len() + b.len()) as int].has_entry);
    }
}

/// Only one place in a chain is that of the first candidate that holds the
/// entry file.
pub proof fn lemma_first_hit_is_unique(chain: Seq<CandidateView>, i: int, j: int)
    requires
        is_first_hit(chain, i),
        is_first_hit(chain, j),
    ensures
        i == j,
{
    if i < j {
        assert(!chain[i].has_entry);
    } else if j < i {
        assert(!chain[j].has_entry);
    }
}

} // verus!
