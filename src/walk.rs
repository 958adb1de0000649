use vstd::prelude::*;

use crate::entry::{is_hidden, is_hidden_name, EntryKind, Probe};

verus! {

/// How a listing is run: fixed for the whole run.
#[derive(Clone, Copy, Debug, PartialEq, Eq, Structural)]
pub struct Config {
    /// Show and open directories only.
    pub dirs_only: bool,
    /// Entries at this depth or deeper are neither shown nor opened.
    pub max_depth: Option<usize>,
}

/// One line of the tree: an entry's name at its depth.
#[derive(Clone, Debug)]
pub struct Line {
    pub depth: usize,
    pub name: String,
    pub kind: EntryKind,
}

/// What becomes of one visited path.
#[derive(Clone, Debug)]
pub enum Outcome {
    /// Nothing is shown and nothing below it is visited.
    Skip,
    /// The root does not exist: the run reports it and shows nothing.
    Missing,
    /// The entry is shown; a directory is then opened.
    Show(Line),
}

/// A path waiting to be visited, with its depth below the root.
#[derive(Clone, Debug)]
pub struct Visit<P> {
    pub path: P,
    pub depth: usize,
}

pub open spec fn beyond_limit(c: Config, depth: int) -> bool {
    c.max_depth matches Some(m) && depth >= m
}

/// Whether the rules show an entry. They are tried in a fixed order: existence,
/// the depth limit, directories only, a name that reads as text, hidden names.
pub open spec fn shown(c: Config, depth: int, p: Probe) -> bool {
    &&& p.exists
    &&& !beyond_limit(c, depth)
    &&& !(c.dirs_only && p.kind != EntryKind::Directory)
    &&& p.name matches Some(n) && !is_hidden_name(n@)
}

/// Whether the rules open an entry to visit what it holds.
pub open spec fn descends(c: Config, depth: int, p: Probe) -> bool {
    shown(c, depth, p) && p.kind == EntryKind::Directory
}

/// Only a missing root is reported; a missing entry further down is passed over.
pub open spec fn reports_missing(depth: int, p: Probe) -> bool {
    !p.exists && depth == 0
}

/// Whether an outcome opens the entry.
pub open spec fn opens(o: Outcome) -> bool {
    o matches Outcome::Show(line) && line.kind == EntryKind::Directory
}

/// The visits that opening a directory at `depth` adds: its children at the next
/// depth, last child first, so that the first child is visited next.
pub open spec fn child_visits<P>(children: Seq<P>, depth: int) -> Seq<Visit<P>> {
    Seq::new(
        children.len(),
        |i: int| Visit { path: children[children.len() - 1 - i], depth: (depth + 1) as usize },
    )
}

impl Outcome {
    /// Whether this outcome opens the entry, so that its children are to be listed.
    pub fn opens_entry(&self) -> (r: bool)
        ensures
            r == opens(*self),
    {
        match self {
            Outcome::Show(line) => match line.kind {
                EntryKind::Directory => true,
                _ => false,
            },
            _ => false,
        }
    }
}

impl Config {
    /// Decides what becomes of a path at `depth`, given what the filesystem said of it.
    /// Existence is tried first, so a missing root is reported whatever the
    /// configuration; the other rules pass an entry over silently.
    pub fn decide(&self, depth: usize, probe: &Probe) -> (r: Outcome)
        ensures
            r is Missing <==> reports_missing(depth as int, *probe),
            r is Show <==> shown(*self, depth as int, *probe),
            opens(r) <==> descends(*self, depth as int, *probe),
            r matches Outcome::Show(line) ==> {
                &&& line.depth == depth
                &&& line.kind == probe.kind
                &&& probe.name matches Some(n) && line.name@ == n@
            },
    {
        if !probe.exists {
            if depth == 0 {
                return Outcome::Missing;
            } else {
                return Outcome::Skip;
            }
        }
        if let Some(m) = self.max_depth {
            if depth >= m {
                return Outcome::Skip;
            }
        }
        let is_dir = match probe.kind {
            EntryKind::Directory => true,
            _ => false,
        };
        if self.dirs_only && !is_dir {
            return Outcome::Skip;
        }
        match &probe.name {
            None => Outcome::Skip,
            Some(n) => {
                if is_hidden(n.as_str()) {
                    Outcome::Skip
                } else {
                    Outcome::Show(Line { depth, name: n.clone(), kind: probe.kind })
                }
            },
        }
    }
}

/// The work-list of a depth-first listing. The caller takes the next visit, asks
/// the filesystem about its path, has the walker decide, and hands back the
/// children of the entry when the decision opens it. The walker keeps its last
/// decision, so only an entry that the rules open can have its children queued.
pub struct Walker<P> {
    config: Config,
    pending: Vec<Visit<P>>,
    opened: Option<usize>,
}

impl<P> Walker<P> {
    /// The configuration the walker was made with.
    pub closed spec fn spec_config(&self) -> Config {
        self.config
    }

    /// The visits still to be made; the last one is made next.
    pub closed spec fn pending(&self) -> Seq<Visit<P>> {
        self.pending@
    }

    /// The depth of the entry that the last decision opened, if it opened one.
    pub closed spec fn opened(&self) -> Option<usize> {
        self.opened
    }

    /// Under a depth limit, nothing deeper than the limit is queued, and only an
    /// entry above the limit is opened.
    pub open spec fn bounded(&self) -> bool {
        self.spec_config().max_depth matches Some(m) ==> {
            &&& forall|i: int|
                0 <= i < self.pending().len() ==> #[trigger] self.pending()[i].depth <= m
            &&& self.opened() matches Some(d) ==> d < m
        }
    }

    /// Starts a listing at `root`, at depth 0.
    pub fn new(root: P, config: Config) -> (w: Self)
        ensures
            w.spec_config() == config,
            w.pending() == seq![Visit { path: root, depth: 0usize }],
            w.opened() is None,
            w.bounded(),
    {
        let mut pending: Vec<Visit<P>> = Vec::new();
        pending.push(Visit { path: root, depth: 0 });
        Walker { config, pending, opened: None }
    }

    pub fn config(&self) -> (c: Config)
        ensures
            c == self.spec_config(),
    {
        self.config
    }

    /// Takes the next visit, or `None` once the listing is done.
    pub fn next_visit(&mut self) -> (v: Option<Visit<P>>)
        ensures
            final(self).spec_config() == old(self).spec_config(),
            final(self).opened() is None,
            old(self).bounded() ==> final(self).bounded(),
            old(self).pending().len() == 0 ==> v is None && final(self).pending() == old(
                self,
            ).pending(),
            old(self).pending().len() > 0 ==> v == Some(old(self).pending().last())
                && final(self).pending() == old(self).pending().drop_last(),
    {
        self.opened = None;
        self.pending.pop()
    }

    /// Decides what becomes of a visit, under the walker's configuration, and
    /// remembers whether the entry is to be opened.
    pub fn decide(&mut self, visit: &Visit<P>, probe: &Probe) -> (r: Outcome)
        ensures
            r is Missing <==> reports_missing(visit.depth as int, *probe),
            r is Show <==> shown(old(self).spec_config(), visit.depth as int, *probe),
            opens(r) <==> descends(old(self).spec_config(), visit.depth as int, *probe),
            r matches Outcome::Show(line) ==> {
                &&& line.depth == visit.depth
                &&& line.kind == probe.kind
                &&& probe.name matches Some(n) && line.name@ == n@
            },
            final(self).spec_config() == old(self).spec_config(),
            final(self).pending() == old(self).pending(),
            old(self).bounded() ==> final(self).bounded(),
            final(self).opened() == (if opens(r) {
                Some(visit.depth)
            } else {
                None
            }),
    {
        let r = self.config.decide(visit.depth, probe);
        self.opened = match &r {
            Outcome::Show(line) => match line.kind {
                EntryKind::Directory => Some(visit.depth),
                _ => None,
            },
            _ => None,
        };
        r
    }

    /// Queues the children of the entry that the last decision opened, one level
    /// deeper; where it opened none, leaves the work-list as it is.
    pub fn enter(&mut self, children: Vec<P>)
        requires
            old(self).opened() matches Some(d) ==> d < usize::MAX,
        ensures
            final(self).spec_config() == old(self).spec_config(),
            final(self).opened() is None,
            old(self).bounded() ==> final(self).bounded(),
            old(self).opened() matches Some(d) ==> final(self).pending() == old(self).pending()
                + child_visits(children@, d as int),
            old(self).opened() is None ==> final(self).pending() == old(self).pending(),
    {
        let depth = match self.opened {
            Some(d) => d + 1,
            None => return,
        };
        self.opened = None;
        let mut children = children;
        let ghost start = self.pending@;
        let ghost all = children@;
        while children.len() > 0
            invariant
                all.len() >= children@.len(),
                children@ == all.take(children@.len() as int),
                self.pending@ == start + child_visits(all, depth - 1).take(
                    all.len() - children@.len(),
                ),
                self.config == old(self).config,
                self.opened is None,
                depth >= 1,
                old(self).bounded() ==> (self.config.max_depth matches Some(m) ==> depth <= m),
            decreases children.len(),
        {
            let c = children.pop().unwrap();
            self.pending.push(Visit { path: c, depth });
            proof {
                assert(child_visits(all, depth - 1).take(all.len() - children@.len())
                    =~= child_visits(all, depth - 1).take(all.len() - children@.len() - 1).push(
                    Visit { path: c, depth },
                ));
            }
        }
        proof {
            assert(child_visits(all, depth - 1).take(all.len() as int) =~= child_visits(
                all,
                depth - 1,
            ));
        }
    }
}

/// Under a depth limit, every entry shown lies above it.
pub proof fn shown_entries_lie_above_limit(c: Config, depth: int, p: Probe)
    requires
        shown(c, depth, p),
    ensures
        c.max_depth matches Some(m) ==> depth < m,
{
}

/// With directories only, every entry shown is a directory.
pub proof fn dirs_only_shows_directories(c: Config, depth: int, p: Probe)
    requires
        c.dirs_only,
        shown(c, depth, p),
    ensures
        p.kind == EntryKind::Directory,
{
}

/// An entry whose name starts with a period is neither shown nor opened, so nothing
/// below it is ever visited.
pub proof fn hidden_entries_stay_out(c: Config, depth: int, p: Probe)
    requires
        p.name matches Some(n) && is_hidden_name(n@),
    ensures
        !shown(c, depth, p),
        !descends(c, depth, p),
{
}

/// A root that does not exist is reported, and neither shown nor opened, whatever
/// the configuration.
pub proof fn missing_root_is_reported(c: Config, p: Probe)
    requires
        !p.exists,
    ensures
        reports_missing(0, p),
        !shown(c, 0, p),
        !descends(c, 0, p),
{
}

/// The rules see only what the filesystem answered: two answers that agree on
/// existence, kind and the text of the name are decided alike.
pub proof fn equal_answers_decide_alike(c: Config, depth: int, p: Probe, q: Probe)
    requires
        p.exists == q.exists,
        p.kind == q.kind,
        p.name is Some <==> q.name is Some,
        p.name matches Some(a) ==> (q.name matches Some(b) && a@ == b@),
    ensures
        shown(c, depth, p) == shown(c, depth, q),
        descends(c, depth, p) == descends(c, depth, q),
        reports_missing(depth, p) == reports_missing(depth, q),
{
}

} // verus!
