//! Library discovery: which file to try next, in which order, and what to
//! report when nothing loads.
//!
//! Resolution walks a fixed list of candidate file names.  Each name is
//! first tried bare, so the operating system's own library search applies;
//! only if that load fails is the name tried under each search location in
//! turn, skipping locations where the file does not exist.  The first
//! attempt that both loads and binds wins and resolution stops.  When every
//! attempt has failed, only the last recorded error is reported — earlier
//! diagnostics are deliberately discarded — or a generic failure when no
//! attempt was ever recorded.
//!
//! The loads themselves happen outside the verified core.  The `Resolver`
//! here is the decision machine: the driver asks for the next target,
//! performs the load, and hands back what happened; every transition is
//! pinned by `step_model`.

use vstd::prelude::*;
use vstd::string::StringExecFns;
use crate::symbols::SymbolTableShape;
use crate::text::{join_under, joined_path};

verus! {

broadcast use vstd::prelude::Seq::lemma_push_map_commute;

/// The views of a vector of strings.
pub open spec fn views_of(v: Seq<String>) -> Seq<Seq<char>> {
    v.map_values(|s: String| s@)
}

/// The candidate file name at position `i` in preference order.
pub open spec fn candidate_name_spec(i: int) -> Seq<char> {
    if i == 0 {
        "libmpv-2.dll"@
    } else if i == 1 {
        "mpv.dll"@
    } else {
        "libmpv.dll"@
    }
}

/// The candidate library file names, most likely correct first.
pub fn candidate_names() -> (r: Vec<String>)
    ensures
        r@.len() == 3,
        forall|i: int| 0 <= i < 3 ==> (#[trigger] r@[i])@ == candidate_name_spec(i),
{
    let mut v: Vec<String> = Vec::new();
    v.push(String::from_str("libmpv-2.dll"));
    v.push(String::from_str("mpv.dll"));
    v.push(String::from_str("libmpv.dll"));
    v
}

/// What the driver has established about the process's surroundings before
/// the search-location list is built: the executable's directory and its
/// parent, the working directory and its parent, and whether each optional
/// packaged or development subdirectory exists on disk.
pub struct PathFacts {
    pub exe_dir: Option<String>,
    pub exe_ancestor: Option<String>,
    pub cwd: Option<String>,
    pub cwd_parent: Option<String>,
    pub resources_sdk_exists: bool,
    pub dev_sdk_exists: bool,
    pub parent_sdk_exists: bool,
}

/// The same facts over plain character sequences.
#[verifier::ext_equal]
pub ghost struct PathFactsModel {
    pub exe_dir: Option<Seq<char>>,
    pub exe_ancestor: Option<Seq<char>>,
    pub cwd: Option<Seq<char>>,
    pub cwd_parent: Option<Seq<char>>,
    pub resources_sdk_exists: bool,
    pub dev_sdk_exists: bool,
    pub parent_sdk_exists: bool,
}

/// The view of an optional string.
pub open spec fn opt_view(o: Option<String>) -> Option<Seq<char>> {
    match o {
        Option::None => Option::None,
        Option::Some(s) => Option::Some(s@),
    }
}

impl PathFacts {
    /// These facts as plain character sequences.
    pub open spec fn model(self) -> PathFactsModel {
        PathFactsModel {
            exe_dir: opt_view(self.exe_dir),
            exe_ancestor: opt_view(self.exe_ancestor),
            cwd: opt_view(self.cwd),
            cwd_parent: opt_view(self.cwd_parent),
            resources_sdk_exists: self.resources_sdk_exists,
            dev_sdk_exists: self.dev_sdk_exists,
            parent_sdk_exists: self.parent_sdk_exists,
        }
    }
}

/// The ordered search locations built from the facts: the working
/// directory, the executable's directory, the packaged-resources
/// subdirectory beside it, and the development subdirectory under the
/// working directory and under its parent — each optional entry only when
/// its directory is known and, for the last three, only when it exists on
/// disk.
pub open spec fn search_paths_spec(f: PathFactsModel) -> Seq<Seq<char>> {
    let s = seq!["."@];
    let s = if f.exe_dir is Some {
        s.push(f.exe_dir->0)
    } else {
        s
    };
    let s = if f.exe_ancestor is Some && f.resources_sdk_exists {
        s.push(joined_path(joined_path(f.exe_ancestor->0, "resources"@), "mpv-sdk"@))
    } else {
        s
    };
    let s = if f.cwd is Some && f.dev_sdk_exists {
        s.push(joined_path(f.cwd->0, "mpv-sdk"@))
    } else {
        s
    };
    if f.cwd_parent is Some && f.parent_sdk_exists {
        s.push(joined_path(f.cwd_parent->0, "mpv-sdk"@))
    } else {
        s
    }
}

/// Builds the ordered list of search locations from the facts.
pub fn search_paths(f: &PathFacts) -> (r: Vec<String>)
    ensures
        views_of(r@) == search_paths_spec(f.model()),
{
    let mut v: Vec<String> = Vec::new();
    v.push(String::from_str("."));
    if let Some(d) = &f.exe_dir {
        v.push(d.clone());
    }
    if f.resources_sdk_exists {
        if let Some(a) = &f.exe_ancestor {
            let base = join_under(a.as_str(), "resources");
            v.push(join_under(base.as_str(), "mpv-sdk"));
        }
    }
    if f.dev_sdk_exists {
        if let Some(c) = &f.cwd {
            v.push(join_under(c.as_str(), "mpv-sdk"));
        }
    }
    if f.parent_sdk_exists {
        if let Some(p) = &f.cwd_parent {
            v.push(join_under(p.as_str(), "mpv-sdk"));
        }
    }
    assert(views_of(v@) =~= search_paths_spec(f.model()));
    v
}

/// What the driver should try next: a bare file name, resolved through the
/// operating system's own library search, or an explicit joined path.
pub enum LoadTarget {
    ByName(String),
    AtPath(String),
}

/// What one load attempt came to.  `FileAbsent` is only meaningful for an
/// explicit path, whose existence is checked before loading; `LoadFailed`
/// carries the loader's error, `BindFailed` the symbol-binding failure for
/// a library that did load, and `Bound` the shape of a fully bound table.
pub enum AttemptOutcome {
    FileAbsent,
    LoadFailed(String),
    BindFailed(String),
    Bound(SymbolTableShape),
}

/// An attempt outcome over plain character sequences.
#[verifier::ext_equal]
pub ghost enum AttemptOutcomeModel {
    FileAbsent,
    LoadFailed(Seq<char>),
    BindFailed(Seq<char>),
    Bound(SymbolTableShape),
}

impl AttemptOutcome {
    /// This outcome as plain character sequences.
    pub open spec fn model(self) -> AttemptOutcomeModel {
        match self {
            AttemptOutcome::FileAbsent => AttemptOutcomeModel::FileAbsent,
            AttemptOutcome::LoadFailed(e) => AttemptOutcomeModel::LoadFailed(e@),
            AttemptOutcome::BindFailed(e) => AttemptOutcomeModel::BindFailed(e@),
            AttemptOutcome::Bound(t) => AttemptOutcomeModel::Bound(t),
        }
    }
}

/// The resolution machine's state over plain values: the candidate names
/// and search locations, the position of the current attempt, the last
/// recorded error, and the final outcome once resolution has ended.
#[verifier::ext_equal]
pub ghost struct ResolverModel {
    pub names: Seq<Seq<char>>,
    pub paths: Seq<Seq<char>>,
    pub ni: int,
    pub pi: int,
    pub in_paths: bool,
    pub last_err: Option<Seq<char>>,
    pub outcome: Option<Result<SymbolTableShape, Seq<char>>>,
}

/// The failure reported when no load attempt was ever recorded.
pub open spec fn default_failure() -> Seq<char> {
    "No mpv DLL found"@
}

/// The name the machine is currently trying.
pub open spec fn current_name(m: ResolverModel) -> Seq<char> {
    m.names[m.ni]
}

/// The joined path the machine is currently trying.
pub open spec fn current_path(m: ResolverModel) -> Seq<char> {
    joined_path(m.paths[m.pi], m.names[m.ni])
}

/// The error recorded when a library file fails to load from an explicit
/// path.
pub open spec fn path_load_failure(name: Seq<char>, path: Seq<char>, e: Seq<char>) -> Seq<char> {
    "Failed to load "@ + name + " from "@ + path + ": "@ + e
}

/// The error recorded when a library loads from an explicit path but a
/// required entry point is missing.
pub open spec fn path_bind_failure(path: Seq<char>, e: Seq<char>) -> Seq<char> {
    "Failed to load symbols from "@ + path + ": "@ + e
}

/// Ends resolution: the outcome is the last recorded error, or the generic
/// failure when none was recorded.
pub open spec fn finish_model(m: ResolverModel) -> ResolverModel {
    ResolverModel {
        outcome: Option::Some(
            Result::Err(
                match m.last_err {
                    Option::Some(e) => e,
                    Option::None => default_failure(),
                },
            ),
        ),
        ..m
    }
}

/// Moves to the next candidate name, back in the bare-name phase, ending
/// resolution when the names are exhausted.
pub open spec fn next_name_model(m: ResolverModel) -> ResolverModel {
    let m2 = ResolverModel { ni: m.ni + 1, pi: 0, in_paths: false, ..m };
    if m.ni + 1 >= m.names.len() {
        finish_model(m2)
    } else {
        m2
    }
}

/// Moves to the next search location for the current name, falling through
/// to the next name when the locations are exhausted.
pub open spec fn next_path_model(m: ResolverModel) -> ResolverModel {
    if m.pi + 1 >= m.paths.len() {
        next_name_model(m)
    } else {
        ResolverModel { pi: m.pi + 1, ..m }
    }
}

/// The machine's transition: how one attempt's outcome advances the search.
///
/// A bound table ends resolution at once.  A bare-name load failure moves
/// into the explicit search locations with nothing recorded — or straight
/// to the next name when there are none.  A bind failure after a bare-name
/// load records the binder's error verbatim and abandons the name.  In the
/// path phase, an absent file is skipped silently, a load failure records
/// where and what failed, a bind failure records the path and the binder's
/// error; each then advances to the next location.
pub open spec fn step_model(m: ResolverModel, ev: AttemptOutcomeModel) -> ResolverModel {
    match ev {
        AttemptOutcomeModel::Bound(t) => ResolverModel {
            outcome: Option::Some(Result::Ok(t)),
            ..m
        },
        AttemptOutcomeModel::FileAbsent => next_path_model(m),
        AttemptOutcomeModel::LoadFailed(e) => if !m.in_paths {
            if m.paths.len() == 0 {
                next_name_model(m)
            } else {
                ResolverModel { in_paths: true, pi: 0, ..m }
            }
        } else {
            next_path_model(
                ResolverModel {
                    last_err: Option::Some(
                        path_load_failure(current_name(m), current_path(m), e),
                    ),
                    ..m
                },
            )
        },
        AttemptOutcomeModel::BindFailed(e) => if !m.in_paths {
            next_name_model(ResolverModel { last_err: Option::Some(e), ..m })
        } else {
            next_path_model(
                ResolverModel {
                    last_err: Option::Some(path_bind_failure(current_path(m), e)),
                    ..m
                },
            )
        },
    }
}

impl ResolverModel {
    /// While resolution is running, the current position denotes a real
    /// name and, in the path phase, a real location.
    pub open spec fn wf(self) -> bool {
        &&& self.outcome is None ==> 0 <= self.ni < self.names.len()
        &&& (self.outcome is None && self.in_paths) ==> 0 <= self.pi < self.paths.len()
    }
}

/// The resolution machine.  The driver alternates `next_target`, the load
/// attempt itself, and `step` until `outcome` answers.
pub struct Resolver {
    names: Vec<String>,
    paths: Vec<String>,
    ni: usize,
    pi: usize,
    in_paths: bool,
    last_err: Option<String>,
    outcome: Option<Result<SymbolTableShape, String>>,
}

impl Resolver {
    /// The machine's state over plain values.
    pub closed spec fn model(self) -> ResolverModel {
        ResolverModel {
            names: views_of(self.names@),
            paths: views_of(self.paths@),
            ni: self.ni as int,
            pi: self.pi as int,
            in_paths: self.in_paths,
            last_err: opt_view(self.last_err),
            outcome: match self.outcome {
                Option::None => Option::None,
                Option::Some(Result::Ok(t)) => Option::Some(Result::Ok(t)),
                Option::Some(Result::Err(e)) => Option::Some(Result::Err(e@)),
            },
        }
    }

    /// The machine is within bounds.
    pub open spec fn wf(self) -> bool {
        self.model().wf()
    }

    /// Starts a resolution over the given candidate names and search
    /// locations.  With no candidate names at all, resolution ends at once
    /// with the generic failure.
    pub fn new(names: Vec<String>, paths: Vec<String>) -> (r: Resolver)
        ensures
            r.wf(),
            r.model().names == views_of(names@),
            r.model().paths == views_of(paths@),
            r.model().ni == 0,
            r.model().pi == 0,
            !r.model().in_paths,
            r.model().last_err is None,
            names@.len() == 0 ==> r.model().outcome == Option::Some(
                Result::<SymbolTableShape, Seq<char>>::Err(default_failure()),
            ),
            names@.len() > 0 ==> r.model().outcome is None,
    {
        let empty = names.len() == 0;
        let outcome: Option<Result<SymbolTableShape, String>> = if empty {
            Some(Err(String::from_str("No mpv DLL found")))
        } else {
            None
        };
        Resolver { names, paths, ni: 0, pi: 0, in_paths: false, last_err: None, outcome }
    }

    /// Whether resolution has ended.
    pub fn finished(&self) -> (b: bool)
        ensures
            b == (self.model().outcome is Some),
    {
        self.outcome.is_some()
    }

    /// The final outcome, once resolution has ended: the bound table's
    /// shape, or the retained failure reason.
    pub fn outcome(&self) -> (r: Option<Result<SymbolTableShape, String>>)
        ensures
            match r {
                Option::None => self.model().outcome is None,
                Option::Some(Result::Ok(t)) => self.model().outcome == Option::Some(
                    Result::<SymbolTableShape, Seq<char>>::Ok(t),
                ),
                Option::Some(Result::Err(e)) => self.model().outcome == Option::Some(
                    Result::<SymbolTableShape, Seq<char>>::Err(e@),
                ),
            },
    {
        match &self.outcome {
            None => None,
            Some(Ok(t)) => Some(Ok(*t)),
            Some(Err(e)) => Some(Err(e.clone())),
        }
    }

    /// What the driver should try next, or nothing once resolution has
    /// ended.
    pub fn next_target(&self) -> (r: Option<LoadTarget>)
        requires
            self.wf(),
        ensures
            match r {
                Option::None => self.model().outcome is Some,
                Option::Some(LoadTarget::ByName(n)) => self.model().outcome is None
                    && !self.model().in_paths && n@ == current_name(self.model()),
                Option::Some(LoadTarget::AtPath(p)) => self.model().outcome is None
                    && self.model().in_paths && p@ == current_path(self.model()),
            },
    {
        if self.outcome.is_some() {
            None
        } else if !self.in_paths {
            Some(LoadTarget::ByName(self.names[self.ni].clone()))
        } else {
            Some(
                LoadTarget::AtPath(
                    join_under(self.paths[self.pi].as_str(), self.names[self.ni].as_str()),
                ),
            )
        }
    }

    fn advance_name(&mut self)
        requires
            old(self).wf(),
            old(self).model().outcome is None,
        ensures
            final (self).wf(),
            final (self).model() == next_name_model(old(self).model()),
    {
        proof {
            assert(self.ni < self.names.len());
        }
        self.ni = self.ni + 1;
        self.pi = 0;
        self.in_paths = false;
        if self.ni >= self.names.len() {
            let reason = match &self.last_err {
                Some(e) => e.clone(),
                None => String::from_str("No mpv DLL found"),
            };
            self.outcome = Some(Err(reason));
        }
        assert(final (self).model() =~= next_name_model(old(self).model()));
    }

    fn advance_path(&mut self)
        requires
            old(self).wf(),
            old(self).model().outcome is None,
            old(self).model().in_paths,
        ensures
            final (self).wf(),
            final (self).model() == next_path_model(old(self).model()),
    {
        proof {
            assert(self.pi < self.paths.len());
        }
        if self.pi + 1 >= self.paths.len() {
            self.advance_name();
        } else {
            self.pi = self.pi + 1;
            assert(final (self).model() =~= next_path_model(old(self).model()));
        }
    }

    /// Feeds one attempt's outcome into the machine.
    pub fn step(&mut self, ev: AttemptOutcome)
        requires
            old(self).wf(),
            old(self).model().outcome is None,
            ev is FileAbsent ==> old(self).model().in_paths,
        ensures
            final (self).wf(),
            final (self).model() == step_model(old(self).model(), ev.model()),
    {
        match ev {
            AttemptOutcome::Bound(t) => {
                self.outcome = Some(Ok(t));
                assert(final (self).model() =~= step_model(old(self).model(), ev.model()));
            },
            AttemptOutcome::FileAbsent => {
                self.advance_path();
            },
            AttemptOutcome::LoadFailed(e) => {
                if !self.in_paths {
                    if self.paths.len() == 0 {
                        self.advance_name();
                    } else {
                        self.in_paths = true;
                        self.pi = 0;
                        assert(final (self).model() =~= step_model(
                            old(self).model(),
                            ev.model(),
                        ));
                    }
                } else {
                    let joined = join_under(
                        self.paths[self.pi].as_str(),
                        self.names[self.ni].as_str(),
                    );
                    let m = String::from_str("Failed to load ").concat(
                        self.names[self.ni].as_str(),
                    ).concat(" from ").concat(joined.as_str()).concat(": ").concat(e.as_str());
                    self.last_err = Some(m);
                    self.advance_path();
                }
            },
            AttemptOutcome::BindFailed(e) => {
                if !self.in_paths {
                    self.last_err = Some(e);
                    self.advance_name();
                } else {
                    let joined = join_under(
                        self.paths[self.pi].as_str(),
                        self.names[self.ni].as_str(),
                    );
                    let m = String::from_str("Failed to load symbols from ").concat(
                        joined.as_str(),
                    ).concat(": ").concat(e.as_str());
                    self.last_err = Some(m);
                    self.advance_path();
                }
            },
        }
    }
}

/// First success wins: an attempt that loads and binds ends resolution at
/// once with the bound table, whatever the machine's position; nothing is
/// retried afterwards, since a decided machine accepts no further step.
pub proof fn lemma_first_success_wins(m: ResolverModel, t: SymbolTableShape)
    ensures
        step_model(m, AttemptOutcomeModel::Bound(t)).outcome == Option::Some(
            Result::<SymbolTableShape, Seq<char>>::Ok(t),
        ),
{
}

/// How many load attempts can still come before resolution must end: one
/// bare attempt plus one per search location for every name not yet
/// abandoned.
pub open spec fn remaining_attempts(m: ResolverModel) -> int {
    if m.outcome is Some {
        0
    } else if !m.in_paths {
        (m.names.len() - m.ni) * (m.paths.len() + 1)
    } else {
        (m.names.len() - m.ni - 1) * (m.paths.len() + 1) + (m.paths.len() - m.pi)
    }
}

/// Resolution always ends: every step either decides the outcome or
/// strictly shrinks the number of attempts that can still come, which
/// never goes negative — so the driver's probe loop terminates.
pub proof fn lemma_step_progress(m: ResolverModel, ev: AttemptOutcomeModel)
    requires
        m.wf(),
        m.outcome is None,
        ev is FileAbsent ==> m.in_paths,
    ensures
        remaining_attempts(m) > 0,
        step_model(m, ev).outcome is Some || remaining_attempts(step_model(m, ev))
            < remaining_attempts(m),
        remaining_attempts(step_model(m, ev)) >= 0,
{
    let n = m.names.len() as int;
    let p = m.paths.len() as int;
    if !m.in_paths {
        let k = n - m.ni;
        assert(0 < k * (p + 1) && (k - 1) * (p + 1) + (p + 1) == k * (p + 1) && 0 <= (k - 1) * (p
            + 1)) by (nonlinear_arith)
            requires
                0 < k && 0 <= p,
        ;
    } else {
        let k = n - m.ni - 1;
        assert(0 <= k * (p + 1)) by (nonlinear_arith)
            requires
                0 <= k && 0 <= p,
        ;
    }
}

/// Only the last error survives: when the very last attempt does not
/// bind, resolution ends with exactly one error — the one this attempt
/// just recorded, or, for a silently skipped file, the one recorded
/// before it — and earlier diagnostics are gone; when no attempt was ever
/// recorded, the generic failure stands in.
pub proof fn lemma_exhaustion_reports_last_error(m: ResolverModel, ev: AttemptOutcomeModel)
    requires
        m.wf(),
        m.outcome is None,
        m.in_paths,
        m.ni == m.names.len() - 1,
        m.pi == m.paths.len() - 1,
        !(ev is Bound),
    ensures
        step_model(m, ev).outcome == Option::Some(
            Result::<SymbolTableShape, Seq<char>>::Err(
                match ev {
                    AttemptOutcomeModel::FileAbsent => match m.last_err {
                        Option::Some(e) => e,
                        Option::None => default_failure(),
                    },
                    AttemptOutcomeModel::LoadFailed(e) => path_load_failure(
                        current_name(m),
                        current_path(m),
                        e,
                    ),
                    AttemptOutcomeModel::BindFailed(e) => path_bind_failure(current_path(m), e),
                    AttemptOutcomeModel::Bound(_) => default_failure(),
                },
            ),
        ),
{
}

} // verus!
