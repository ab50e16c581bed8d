//! The research engine: prerequisite gating, progress, and the display
//! projections the UI polls.
//!
//! A research moves through four states: locked (prerequisites unmet),
//! available (unlocked, no progress record), in progress (record short of
//! the cost), finished (record at the cost).  There are no back
//! transitions: progress only grows and the finished flag never clears.
//! Starting a research is a silent no-op unless it is available, so at
//! most one progress record ever exists per research id.

use crate::color::MenuColor;
use crate::research::Research;
use crate::research::ResearchField;
use crate::research::ResearchProgress;
use crate::text::dec_str_spec;
use crate::text::u32_text;
use vstd::prelude::*;

verus! {

/// The first catalog entry with the given id, if any.
pub open spec fn find_research_spec(rs: Seq<Research>, id: Seq<char>) -> Option<Research>
    decreases rs.len(),
{
    if rs.len() == 0 {
        None
    } else if rs[0].id@ == id {
        Some(rs[0])
    } else {
        find_research_spec(rs.drop_first(), id)
    }
}

/// The first progress record with the given id, if any.
pub open spec fn find_progress_spec(ps: Seq<ResearchProgress>, id: Seq<char>) -> Option<
    ResearchProgress,
>
    decreases ps.len(),
{
    if ps.len() == 0 {
        None
    } else if ps[0].id@ == id {
        Some(ps[0])
    } else {
        find_progress_spec(ps.drop_first(), id)
    }
}

/// Whether a progress record exists for the id.
pub open spec fn has_progress_spec(ps: Seq<ResearchProgress>, id: Seq<char>) -> bool {
    find_progress_spec(ps, id) is Some
}

/// Whether the research with this id is finished: a progress record
/// exists and carries the finished flag.
pub open spec fn finished_spec(ps: Seq<ResearchProgress>, id: Seq<char>) -> bool {
    match find_progress_spec(ps, id) {
        Some(p) => p.is_finished,
        None => false,
    }
}

/// Whether one of the ids occurs in the list.
pub open spec fn contains_id_spec(ids: Seq<String>, id: Seq<char>) -> bool {
    exists|k: int| 0 <= k < ids.len() && ids[k]@ == id
}

/// Every id of the list is finished (an empty list asks for nothing).
pub open spec fn all_required_finished_spec(ps: Seq<ResearchProgress>, ids: Seq<String>) -> bool {
    forall|k: int| 0 <= k < ids.len() ==> finished_spec(ps, ids[k]@)
}

/// At least one id of the list is finished.
pub open spec fn any_required_finished_spec(ps: Seq<ResearchProgress>, ids: Seq<String>) -> bool {
    exists|k: int| 0 <= k < ids.len() && finished_spec(ps, ids[k]@)
}

/// Prerequisite satisfaction: every required-ALL id finished, and, when
/// the required-ANY list is non-empty, at least one of its ids finished.
pub open spec fn requirements_satisfied_spec(ps: Seq<ResearchProgress>, r: Research) -> bool {
    &&& all_required_finished_spec(ps, r.required_all@)
    &&& (r.required_any@.len() == 0 || any_required_finished_spec(ps, r.required_any@))
}

/// Whether `start_research` on this id creates a record: the id is in the
/// catalog, its prerequisites are met, and no record exists yet.
pub open spec fn can_start_spec(m: ResearchManager, id: Seq<char>) -> bool {
    match find_research_spec(m.researches@, id) {
        Some(r) => requirements_satisfied_spec(m.progress@, r) && !has_progress_spec(
            m.progress@,
            id,
        ),
        None => false,
    }
}

/// How one `start_research` call changes the progress records: a fresh
/// zero-progress record is appended exactly when `can` holds.
pub open spec fn start_step_spec(
    old_ps: Seq<ResearchProgress>,
    new_ps: Seq<ResearchProgress>,
    id: Seq<char>,
    can: bool,
) -> bool {
    if can {
        &&& new_ps.len() == old_ps.len() + 1
        &&& new_ps.drop_last() == old_ps
        &&& new_ps.last().id@ == id
        &&& new_ps.last().progress == 0
        &&& new_ps.last().speed == 1
        &&& !new_ps.last().is_finished
    } else {
        new_ps == old_ps
    }
}

/// One tick of a single progress record, against the catalog that defines
/// its cost.
pub open spec fn tick_record_spec(rs: Seq<Research>, p: ResearchProgress) -> ResearchProgress {
    match find_research_spec(rs, p.id@) {
        Some(r) => p.updated_spec(r.cost),
        None => p,
    }
}

/// How one research tick relates two manager states: the catalog stays,
/// and every record advances by exactly one tick rule.
pub open spec fn research_ticked_spec(m0: ResearchManager, m1: ResearchManager) -> bool {
    &&& m1.fields == m0.fields
    &&& m1.researches == m0.researches
    &&& m1.progress@.len() == m0.progress@.len()
    &&& forall|i: int|
        0 <= i < m0.progress@.len() ==> m1.progress@[i] == tick_record_spec(
            m0.researches@,
            #[trigger] m0.progress@[i],
        )
}

/// A valid catalog: distinct ids and positive costs.
pub open spec fn catalog_valid_spec(rs: Seq<Research>) -> bool {
    &&& forall|i: int, j: int|
        0 <= i < j < rs.len() ==> (#[trigger] rs[i].id@) != (#[trigger] rs[j].id@)
    &&& forall|i: int| 0 <= i < rs.len() ==> (#[trigger] rs[i]).cost >= 1
}

/// The dependency entries for one requirement list: the catalog entries
/// whose id occurs in the list, in catalog order, each as its display
/// name paired with its finished flag.
pub open spec fn dep_entries_spec(
    rs: Seq<Research>,
    ps: Seq<ResearchProgress>,
    req: Seq<String>,
) -> Seq<(Seq<char>, bool)>
    decreases rs.len(),
{
    if rs.len() == 0 {
        Seq::empty()
    } else {
        let rest = dep_entries_spec(rs.drop_last(), ps, req);
        if contains_id_spec(req, rs.last().id@) {
            rest.push((rs.last().name@, finished_spec(ps, rs.last().id@)))
        } else {
            rest
        }
    }
}

/// A found match at index `i`, with no match before it, is what the
/// search spec returns.
pub proof fn lemma_find_research_at(rs: Seq<Research>, id: Seq<char>, i: int)
    requires
        0 <= i < rs.len(),
        rs[i].id@ == id,
        forall|j: int| 0 <= j < i ==> (#[trigger] rs[j].id@) != id,
    ensures
        find_research_spec(rs, id) == Some(rs[i]),
    decreases i,
{
    if rs[0].id@ == id {
        assert(i == 0);
    } else {
        assert(forall|j: int|
            0 <= j < i - 1 ==> (#[trigger] rs.drop_first()[j].id@) == rs[j + 1].id@ && rs[j
                + 1].id@ != id);
        lemma_find_research_at(rs.drop_first(), id, i - 1);
    }
}

/// With no match anywhere, the search spec returns nothing.
pub proof fn lemma_find_research_none(rs: Seq<Research>, id: Seq<char>)
    requires
        forall|j: int| 0 <= j < rs.len() ==> (#[trigger] rs[j].id@) != id,
    ensures
        find_research_spec(rs, id) is None,
    decreases rs.len(),
{
    if rs.len() > 0 {
        assert(forall|j: int|
            0 <= j < rs.drop_first().len() ==> (#[trigger] rs.drop_first()[j].id@) == rs[j
                + 1].id@ && rs[j + 1].id@ != id);
        lemma_find_research_none(rs.drop_first(), id);
    }
}

/// A found record at index `i`, with no match before it, is what the
/// search spec returns.
pub proof fn lemma_find_progress_at(ps: Seq<ResearchProgress>, id: Seq<char>, i: int)
    requires
        0 <= i < ps.len(),
        ps[i].id@ == id,
        forall|j: int| 0 <= j < i ==> (#[trigger] ps[j].id@) != id,
    ensures
        find_progress_spec(ps, id) == Some(ps[i]),
    decreases i,
{
    if ps[0].id@ == id {
        assert(i == 0);
    } else {
        assert(forall|j: int|
            0 <= j < i - 1 ==> (#[trigger] ps.drop_first()[j].id@) == ps[j + 1].id@ && ps[j
                + 1].id@ != id);
        lemma_find_progress_at(ps.drop_first(), id, i - 1);
    }
}

/// With no record anywhere, the search spec returns nothing.
pub proof fn lemma_find_progress_none(ps: Seq<ResearchProgress>, id: Seq<char>)
    requires
        forall|j: int| 0 <= j < ps.len() ==> (#[trigger] ps[j].id@) != id,
    ensures
        find_progress_spec(ps, id) is None,
    decreases ps.len(),
{
    if ps.len() > 0 {
        assert(forall|j: int|
            0 <= j < ps.drop_first().len() ==> (#[trigger] ps.drop_first()[j].id@) == ps[j
                + 1].id@ && ps[j + 1].id@ != id);
        lemma_find_progress_none(ps.drop_first(), id);
    }
}

/// The research tree and its per-research progress.
pub struct ResearchManager {
    /// The research fields, as loaded at startup.
    pub fields: Vec<ResearchField>,
    /// The research catalog, as loaded at startup.
    pub researches: Vec<Research>,
    /// One record per started research.
    pub progress: Vec<ResearchProgress>,
}

impl ResearchManager {
    /// Structural invariant: a valid catalog; at most one record per id;
    /// every record belongs to a catalog entry, stays within its cost,
    /// carries the finished flag exactly at the cost, and advances at
    /// unit speed.
    pub open spec fn wf(self) -> bool {
        &&& catalog_valid_spec(self.researches@)
        &&& forall|i: int, j: int|
            0 <= i < j < self.progress@.len() ==> (#[trigger] self.progress@[i].id@) != (
            #[trigger] self.progress@[j].id@)
        &&& forall|i: int|
            0 <= i < self.progress@.len() ==> match find_research_spec(
                self.researches@,
                (#[trigger] self.progress@[i]).id@,
            ) {
                Some(r) => self.progress@[i].progress <= r.cost && (self.progress@[i].is_finished
                    <==> self.progress@[i].progress == r.cost),
                None => false,
            }
        &&& forall|i: int| 0 <= i < self.progress@.len() ==> (#[trigger] self.progress@[i]).speed
            == 1
    }

    /// Builds the manager from a parsed catalog; no research is started.
    pub fn new(fields: Vec<ResearchField>, researches: Vec<Research>) -> (r: Self)
        requires
            catalog_valid_spec(researches@),
        ensures
            r.wf(),
            r.fields == fields,
            r.researches == researches,
            r.progress@.len() == 0,
    {
        ResearchManager { fields, researches, progress: Vec::new() }
    }

    /// Index of the catalog entry with this id, if any.
    fn find_research_index(&self, id: &String) -> (r: Option<usize>)
        ensures
            match r {
                Some(i) => i < self.researches@.len() && self.researches@[i as int].id@ == id@
                    && find_research_spec(self.researches@, id@) == Some(
                    self.researches@[i as int],
                ),
                None => find_research_spec(self.researches@, id@) is None,
            },
    {
        let mut i: usize = 0;
        while i < self.researches.len()
            invariant
                i <= self.researches@.len(),
                forall|j: int| 0 <= j < i ==> (#[trigger] self.researches@[j].id@) != id@,
            decreases self.researches@.len() - i,
        {
            if self.researches[i].id == *id {
                proof {
                    lemma_find_research_at(self.researches@, id@, i as int);
                }
                return Some(i);
            }
            i = i + 1;
        }
        proof {
            lemma_find_research_none(self.researches@, id@);
        }
        None
    }

    /// Index of the progress record with this id, if any.
    fn find_progress_index(&self, id: &String) -> (r: Option<usize>)
        ensures
            match r {
                Some(i) => i < self.progress@.len() && self.progress@[i as int].id@ == id@
                    && find_progress_spec(self.progress@, id@) == Some(self.progress@[i as int]),
                None => find_progress_spec(self.progress@, id@) is None,
            },
    {
        let mut i: usize = 0;
        while i < self.progress.len()
            invariant
                i <= self.progress@.len(),
                forall|j: int| 0 <= j < i ==> (#[trigger] self.progress@[j].id@) != id@,
            decreases self.progress@.len() - i,
        {
            if self.progress[i].id == *id {
                proof {
                    lemma_find_progress_at(self.progress@, id@, i as int);
                }
                return Some(i);
            }
            i = i + 1;
        }
        proof {
            lemma_find_progress_none(self.progress@, id@);
        }
        None
    }

    /// The catalog entry with this id, if any.
    pub fn get_research_by_id(&self, id: &String) -> (r: Option<&Research>)
        ensures
            match r {
                Some(res) => find_research_spec(self.researches@, id@) == Some(*res),
                None => find_research_spec(self.researches@, id@) is None,
            },
    {
        match self.find_research_index(id) {
            Some(i) => Some(&self.researches[i]),
            None => None,
        }
    }

    /// Whether the research with this id is finished.
    pub fn is_research_finished(&self, id: &String) -> (r: bool)
        ensures
            r == finished_spec(self.progress@, id@),
    {
        match self.find_progress_index(id) {
            Some(i) => self.progress[i].is_finished,
            None => false,
        }
    }

    /// Prerequisite check for the research with this id: true exactly
    /// when the id is in the catalog, every required-ALL id is finished,
    /// and the required-ANY list is empty or has a finished member.  An
    /// unknown id counts as unsatisfied.
    pub fn are_research_requirements_satisfied(&self, id: &String) -> (r: bool)
        ensures
            r == match find_research_spec(self.researches@, id@) {
                Some(res) => requirements_satisfied_spec(self.progress@, res),
                None => false,
            },
    {
        let idx = match self.find_research_index(id) {
            Some(i) => i,
            None => {
                return false;
            },
        };
        let research = &self.researches[idx];
        let mut k: usize = 0;
        while k < research.required_all.len()
            invariant
                idx < self.researches@.len(),
                research == self.researches@[idx as int],
                find_research_spec(self.researches@, id@) == Some(self.researches@[idx as int]),
                k <= research.required_all@.len(),
                forall|j: int|
                    0 <= j < k ==> finished_spec(
                        self.progress@,
                        (#[trigger] research.required_all@[j])@,
                    ),
            decreases research.required_all@.len() - k,
        {
            if !self.is_research_finished(&research.required_all[k]) {
                return false;
            }
            k = k + 1;
        }
        if research.required_any.len() == 0 {
            return true;
        }
        let mut k: usize = 0;
        while k < research.required_any.len()
            invariant
                idx < self.researches@.len(),
                research == self.researches@[idx as int],
                find_research_spec(self.researches@, id@) == Some(self.researches@[idx as int]),
                all_required_finished_spec(self.progress@, research.required_all@),
                k <= research.required_any@.len(),
                forall|j: int|
                    0 <= j < k ==> !finished_spec(
                        self.progress@,
                        (#[trigger] research.required_any@[j])@,
                    ),
            decreases research.required_any@.len() - k,
        {
            if self.is_research_finished(&research.required_any[k]) {
                return true;
            }
            k = k + 1;
        }
        false
    }

    /// Starts the research with this id.  A no-op unless the id is in the
    /// catalog, its prerequisites are met, and it has no record yet; then
    /// exactly one fresh record is appended, so starting twice still
    /// leaves a single record.  Returns whether the id names a catalog
    /// entry at all, so a caller can tell a bad id from a locked or
    /// already-running research.
    pub fn start_research(&mut self, id: &String) -> (found: bool)
        requires
            old(self).wf(),
        ensures
            final(self).wf(),
            final(self).fields == old(self).fields,
            final(self).researches == old(self).researches,
            found == (find_research_spec(old(self).researches@, id@) is Some),
            start_step_spec(
                old(self).progress@,
                final(self).progress@,
                id@,
                can_start_spec(*old(self), id@),
            ),
    {
        let idx = match self.find_research_index(id) {
            Some(i) => i,
            None => {
                return false;
            },
        };
        if !self.are_research_requirements_satisfied(id) {
            return true;
        }
        match self.find_progress_index(id) {
            Some(_) => {},
            None => {
                let record = ResearchProgress::for_research(&self.researches[idx]);
                proof {
                    assert(self.progress@.push(record).drop_last() =~= self.progress@);
                }
                self.progress.push(record);
                proof {
                    lemma_start_preserves_wf(*old(self), *self, id@);
                }
            },
        }
        true
    }

    /// One research tick: every record advances by its speed, clamped at
    /// its research's cost, and a record that reaches the cost is marked
    /// finished.
    pub fn tick(&mut self)
        requires
            old(self).wf(),
        ensures
            final(self).wf(),
            final(self).fields == old(self).fields,
            final(self).researches == old(self).researches,
            final(self).progress@.len() == old(self).progress@.len(),
            forall|i: int|
                0 <= i < old(self).progress@.len() ==> final(self).progress@[i] == tick_record_spec(
                    old(self).researches@,
                    #[trigger] old(self).progress@[i],
                ),
    {
        let ghost m0 = *self;
        let mut i: usize = 0;
        while i < self.progress.len()
            invariant
                m0.wf(),
                self.fields == m0.fields,
                self.researches == m0.researches,
                i <= self.progress@.len(),
                self.progress@.len() == m0.progress@.len(),
                forall|j: int|
                    i <= j < m0.progress@.len() ==> #[trigger] self.progress@[j]
                        == m0.progress@[j],
                forall|j: int|
                    0 <= j < i ==> #[trigger] self.progress@[j] == tick_record_spec(
                        m0.researches@,
                        m0.progress@[j],
                    ),
            decreases self.progress@.len() - i,
        {
            let id = self.progress[i].id.clone();
            let cost_idx = self.find_research_index(&id);
            match cost_idx {
                Some(ri) => {
                    let cost = self.researches[ri].cost;
                    let p = &self.progress[i];
                    let np: u64 = p.progress as u64 + p.speed as u64;
                    let new_progress: u32 = if np <= cost as u64 {
                        np as u32
                    } else {
                        cost
                    };
                    let new_finished = p.is_finished || new_progress >= cost;
                    let updated = ResearchProgress {
                        id: p.id.clone(),
                        progress: new_progress,
                        speed: p.speed,
                        is_finished: new_finished,
                    };
                    proof {
                        assert(updated == m0.progress@[i as int].updated_spec(cost));
                    }
                    self.progress.set(i, updated);
                },
                None => {},
            }
            i = i + 1;
        }
        proof {
            lemma_tick_preserves_wf(m0, *self);
        }
    }

    /// Completion percentage of the research with this id: zero for an
    /// unknown id or one not yet started.
    pub fn get_research_progress(&self, id: &String) -> (r: u32)
        requires
            self.wf(),
        ensures
            r == progress_percent_spec(*self, id@),
            r <= 100,
    {
        let research = match self.find_research_index(id) {
            Some(i) => i,
            None => {
                return 0;
            },
        };
        let cost = self.researches[research].cost;
        match self.find_progress_index(id) {
            Some(pi) => {
                let p = self.progress[pi].progress;
                proof {
                    assert(p <= cost);
                    assert(p as int * 100 <= cost as int * 100) by (nonlinear_arith)
                        requires
                            p <= cost,
                    ;
                    assert(p as int * 100 / (cost as int) <= 100) by (nonlinear_arith)
                        requires
                            cost >= 1,
                            p as int * 100 <= cost as int * 100,
                    ;
                }
                (p as u64 * 100 / cost as u64) as u32
            },
            None => 0,
        }
    }
}

/// Whether one of the ids in the list matches.
pub fn contains_id(ids: &Vec<String>, id: &String) -> (r: bool)
    ensures
        r == contains_id_spec(ids@, id@),
{
    let mut i: usize = 0;
    while i < ids.len()
        invariant
            i <= ids@.len(),
            forall|j: int| 0 <= j < i ==> (#[trigger] ids@[j])@ != id@,
        decreases ids@.len() - i,
    {
        if ids[i] == *id {
            return true;
        }
        i = i + 1;
    }
    false
}

/// How a rendered dependency list relates to its entries: the sentinel
/// line for an empty requirement set, otherwise one row per entry.
pub open spec fn dep_list_matches_spec(
    out: Seq<(String, bool)>,
    entries: Seq<(Seq<char>, bool)>,
) -> bool {
    if entries.len() == 0 {
        &&& out.len() == 1
        &&& out[0].0@ == "No technologies required"@
        &&& out[0].1
    } else {
        &&& out.len() == entries.len()
        &&& forall|k: int|
            0 <= k < entries.len() ==> (#[trigger] out[k]).0@ == entries[k].0 && out[k].1
                == entries[k].1
    }
}

impl ResearchManager {
    /// The whole catalog, in catalog order.
    pub fn get_all_researches(&self) -> (r: &Vec<Research>)
        ensures
            r == &self.researches,
    {
        &self.researches
    }

    /// One rendered dependency list for a requirement id list.
    fn dep_list(&self, req: &Vec<String>) -> (r: Vec<(String, bool)>)
        ensures
            dep_list_matches_spec(r@, dep_entries_spec(self.researches@, self.progress@, req@)),
    {
        let mut out: Vec<(String, bool)> = Vec::new();
        let mut i: usize = 0;
        while i < self.researches.len()
            invariant
                i <= self.researches@.len(),
                ({
                    let e = dep_entries_spec(
                        self.researches@.take(i as int),
                        self.progress@,
                        req@,
                    );
                    &&& out@.len() == e.len()
                    &&& forall|k: int|
                        0 <= k < e.len() ==> (#[trigger] out@[k]).0@ == e[k].0 && out@[k].1
                            == e[k].1
                }),
            decreases self.researches@.len() - i,
        {
            proof {
                assert(self.researches@.take(i + 1).drop_last() =~= self.researches@.take(
                    i as int,
                ));
                assert(self.researches@.take(i + 1).last() == self.researches@[i as int]);
            }
            if contains_id(req, &self.researches[i].id) {
                let fin = self.is_research_finished(&self.researches[i].id);
                out.push((self.researches[i].name.clone(), fin));
            }
            i = i + 1;
        }
        proof {
            assert(self.researches@.take(self.researches@.len() as int) =~= self.researches@);
        }
        if out.len() == 0 {
            proof {
                reveal_strlit("No technologies required");
            }
            out.push((String::from_str("No technologies required"), true));
        }
        out
    }

    /// Dependency information for a research: its required-ALL list and
    /// its required-ANY list, each rendered as (name, finished) rows in
    /// catalog order, with a sentinel row for an empty requirement set.
    /// An unknown id yields no lists.
    pub fn get_dependency_info(&self, id: &String) -> (r: Vec<Vec<(String, bool)>>)
        ensures
            match find_research_spec(self.researches@, id@) {
                None => r@.len() == 0,
                Some(res) => {
                    &&& r@.len() == 2
                    &&& dep_list_matches_spec(
                        r@[0]@,
                        dep_entries_spec(self.researches@, self.progress@, res.required_all@),
                    )
                    &&& dep_list_matches_spec(
                        r@[1]@,
                        dep_entries_spec(self.researches@, self.progress@, res.required_any@),
                    )
                },
            },
    {
        let idx = match self.find_research_index(id) {
            Some(i) => i,
            None => {
                return Vec::new();
            },
        };
        let all_of = self.dep_list(&self.researches[idx].required_all);
        let any_of = self.dep_list(&self.researches[idx].required_any);
        let mut r: Vec<Vec<(String, bool)>> = Vec::new();
        r.push(all_of);
        r.push(any_of);
        r
    }

    /// Status line of a research: locked, available, complete, or the
    /// running percentage with its progress fraction.
    pub fn get_research_text(&self, id: &String) -> (r: String)
        requires
            self.wf(),
        ensures
            r@ == research_text_spec(*self, id@),
    {
        let idx = match self.find_research_index(id) {
            Some(i) => i,
            None => {
                return String::from_str("Research locked");
            },
        };
        if !self.are_research_requirements_satisfied(id) {
            return String::from_str("Research locked");
        }
        let pi = match self.find_progress_index(id) {
            Some(pi) => pi,
            None => {
                return String::from_str("Research available");
            },
        };
        let pct = self.get_research_progress(id);
        if pct == 100 {
            return String::from_str("Research complete");
        }
        let mut text = String::from_str("Research in progress: ");
        let pct_text = u32_text(pct);
        text.append(pct_text.as_str());
        text.append("% (");
        let progress_text = u32_text(self.progress[pi].progress);
        text.append(progress_text.as_str());
        text.append("/");
        let cost_text = u32_text(self.researches[idx].cost);
        text.append(cost_text.as_str());
        text.append(")");
        text
    }

    /// Display colour of a research: finished, locked, or a band of its
    /// completion percentage.
    pub fn get_research_color(&self, id: &String) -> (c: MenuColor)
        requires
            self.wf(),
        ensures
            c == research_color_spec(*self, id@),
    {
        match self.find_research_index(id) {
            Some(_) => {},
            None => {
                return MenuColor::DarkGray;
            },
        }
        if self.is_research_finished(id) {
            return MenuColor::LightCyan;
        }
        if !self.are_research_requirements_satisfied(id) {
            return MenuColor::DarkGray;
        }
        let pct = self.get_research_progress(id);
        if pct <= 25 {
            MenuColor::LightRed
        } else if pct <= 75 {
            MenuColor::LightYellow
        } else if pct <= 99 {
            MenuColor::LightGreen
        } else {
            MenuColor::LightCyan
        }
    }

    /// Info card of a research: its name, its cost line, and its
    /// description line.  An unknown id yields no card.
    pub fn get_research_info(&self, id: &String) -> (r: Vec<Vec<String>>)
        ensures
            match find_research_spec(self.researches@, id@) {
                None => r@.len() == 0,
                Some(res) => {
                    &&& r@.len() == 3
                    &&& r@[0]@.len() == 1 && r@[0]@[0]@ == res.name@
                    &&& r@[1]@.len() == 1 && r@[1]@[0]@ == "Cost: "@ + dec_str_spec(
                        res.cost as nat,
                    ) + " points"@
                    &&& r@[2]@.len() == 1 && r@[2]@[0]@ == "Description: "@ + res.description@
                },
            },
    {
        let idx = match self.find_research_index(id) {
            Some(i) => i,
            None => {
                return Vec::new();
            },
        };
        let mut name_line: Vec<String> = Vec::new();
        name_line.push(self.researches[idx].name.clone());
        let mut cost_line_text = String::from_str("Cost: ");
        let cost_text = u32_text(self.researches[idx].cost);
        cost_line_text.append(cost_text.as_str());
        cost_line_text.append(" points");
        let mut cost_line: Vec<String> = Vec::new();
        cost_line.push(cost_line_text);
        let mut description_line_text = String::from_str("Description: ");
        description_line_text.append(self.researches[idx].description.as_str());
        let mut description_line: Vec<String> = Vec::new();
        description_line.push(description_line_text);
        let mut r: Vec<Vec<String>> = Vec::new();
        r.push(name_line);
        r.push(cost_line);
        r.push(description_line);
        r
    }

    /// Every field with its id, name, and a colour that summarises how
    /// much of the field is already researched.
    pub fn get_research_fields(&self) -> (r: Vec<(String, String, MenuColor)>)
        requires
            self.wf(),
        ensures
            r@.len() == self.fields@.len(),
            forall|k: int|
                0 <= k < self.fields@.len() ==> (#[trigger] r@[k]).0@ == self.fields@[k].id@
                    && r@[k].1@ == self.fields@[k].name@ && r@[k].2 == field_color_spec(
                    *self,
                    self.fields@[k].id@,
                ),
    {
        let mut out: Vec<(String, String, MenuColor)> = Vec::new();
        let mut i: usize = 0;
        while i < self.fields.len()
            invariant
                self.wf(),
                i <= self.fields@.len(),
                out@.len() == i,
                forall|k: int|
                    0 <= k < i ==> (#[trigger] out@[k]).0@ == self.fields@[k].id@ && out@[k].1@
                        == self.fields@[k].name@ && out@[k].2 == field_color_spec(
                        *self,
                        self.fields@[k].id@,
                    ),
            decreases self.fields@.len() - i,
        {
            let color = self.field_color(&self.fields[i].id);
            out.push((self.fields[i].id.clone(), self.fields[i].name.clone(), color));
            i = i + 1;
        }
        out
    }

    /// Colour summarising a field's overall completion.
    fn field_color(&self, fid: &String) -> (c: MenuColor)
        requires
            self.wf(),
        ensures
            c == field_color_spec(*self, fid@),
    {
        let mut total: usize = 0;
        let mut fin: usize = 0;
        let mut i: usize = 0;
        while i < self.researches.len()
            invariant
                self.wf(),
                i <= self.researches@.len(),
                total == count_in_field_spec(self.researches@.take(i as int), fid@),
                fin == count_finished_in_field_spec(
                    self.researches@.take(i as int),
                    self.progress@,
                    fid@,
                ),
                fin <= i,
                total <= i,
            decreases self.researches@.len() - i,
        {
            proof {
                assert(self.researches@.take(i + 1).drop_last() =~= self.researches@.take(
                    i as int,
                ));
                assert(self.researches@.take(i + 1).last() == self.researches@[i as int]);
            }
            if self.researches[i].field == *fid {
                total = total + 1;
                if self.is_research_finished(&self.researches[i].id) {
                    fin = fin + 1;
                }
            }
            i = i + 1;
        }
        proof {
            assert(self.researches@.take(self.researches@.len() as int) =~= self.researches@);
        }
        if total == 0 {
            return MenuColor::Gray;
        }
        let pct: u128 = fin as u128 * 100 / total as u128;
        if pct <= 10 {
            MenuColor::LightRed
        } else if pct <= 50 {
            MenuColor::LightYellow
        } else if pct <= 90 {
            MenuColor::LightGreen
        } else {
            MenuColor::LightCyan
        }
    }

    /// The researches of one field, each with its id, name and colour,
    /// in catalog order.
    pub fn get_researches_with_colors_by_field(&self, id: &String) -> (r: Vec<
        (String, String, MenuColor),
    >)
        requires
            self.wf(),
        ensures
            ({
                let entries = field_entries_spec(self.researches@, id@);
                &&& r@.len() == entries.len()
                &&& forall|k: int|
                    0 <= k < entries.len() ==> (#[trigger] r@[k]).0@ == entries[k].id@ && r@[k].1@
                        == entries[k].name@ && r@[k].2 == research_color_spec(
                        *self,
                        entries[k].id@,
                    )
            }),
    {
        let mut out: Vec<(String, String, MenuColor)> = Vec::new();
        let mut i: usize = 0;
        while i < self.researches.len()
            invariant
                self.wf(),
                i <= self.researches@.len(),
                ({
                    let entries = field_entries_spec(self.researches@.take(i as int), id@);
                    &&& out@.len() == entries.len()
                    &&& forall|k: int|
                        0 <= k < entries.len() ==> (#[trigger] out@[k]).0@ == entries[k].id@
                            && out@[k].1@ == entries[k].name@ && out@[k].2 == research_color_spec(
                            *self,
                            entries[k].id@,
                        )
                }),
            decreases self.researches@.len() - i,
        {
            proof {
                assert(self.researches@.take(i + 1).drop_last() =~= self.researches@.take(
                    i as int,
                ));
                assert(self.researches@.take(i + 1).last() == self.researches@[i as int]);
            }
            if self.researches[i].field == *id {
                let color = self.get_research_color(&self.researches[i].id);
                out.push((self.researches[i].id.clone(), self.researches[i].name.clone(), color));
            }
            i = i + 1;
        }
        proof {
            assert(self.researches@.take(self.researches@.len() as int) =~= self.researches@);
        }
        out
    }
}

/// Status line of a research, as the view of the rendered string.
pub open spec fn research_text_spec(m: ResearchManager, id: Seq<char>) -> Seq<char> {
    match find_research_spec(m.researches@, id) {
        None => "Research locked"@,
        Some(r) => if !requirements_satisfied_spec(m.progress@, r) {
            "Research locked"@
        } else {
            match find_progress_spec(m.progress@, id) {
                None => "Research available"@,
                Some(p) => if progress_percent_spec(m, id) == 100 {
                    "Research complete"@
                } else {
                    "Research in progress: "@ + dec_str_spec(
                        progress_percent_spec(m, id) as nat,
                    ) + "% ("@ + dec_str_spec(p.progress as nat) + "/"@ + dec_str_spec(
                        r.cost as nat,
                    ) + ")"@
                },
            }
        },
    }
}

/// Display colour of a research.
pub open spec fn research_color_spec(m: ResearchManager, id: Seq<char>) -> MenuColor {
    match find_research_spec(m.researches@, id) {
        None => MenuColor::DarkGray,
        Some(r) => if finished_spec(m.progress@, id) {
            MenuColor::LightCyan
        } else if !requirements_satisfied_spec(m.progress@, r) {
            MenuColor::DarkGray
        } else {
            let pct = progress_percent_spec(m, id);
            if pct <= 25 {
                MenuColor::LightRed
            } else if pct <= 75 {
                MenuColor::LightYellow
            } else if pct <= 99 {
                MenuColor::LightGreen
            } else {
                MenuColor::LightCyan
            }
        },
    }
}

/// Number of catalog entries in the given field.
pub open spec fn count_in_field_spec(rs: Seq<Research>, fid: Seq<char>) -> int
    decreases rs.len(),
{
    if rs.len() == 0 {
        0
    } else {
        count_in_field_spec(rs.drop_last(), fid) + if rs.last().field@ == fid {
            1int
        } else {
            0int
        }
    }
}

/// Number of finished catalog entries in the given field.
pub open spec fn count_finished_in_field_spec(
    rs: Seq<Research>,
    ps: Seq<ResearchProgress>,
    fid: Seq<char>,
) -> int
    decreases rs.len(),
{
    if rs.len() == 0 {
        0
    } else {
        count_finished_in_field_spec(rs.drop_last(), ps, fid) + if rs.last().field@ == fid
            && finished_spec(ps, rs.last().id@) {
            1int
        } else {
            0int
        }
    }
}

/// Colour summarising a field: grey when empty, else a band of the
/// percentage of its researches that are finished.
pub open spec fn field_color_spec(m: ResearchManager, fid: Seq<char>) -> MenuColor {
    let total = count_in_field_spec(m.researches@, fid);
    let fin = count_finished_in_field_spec(m.researches@, m.progress@, fid);
    if total == 0 {
        MenuColor::Gray
    } else {
        let pct = fin * 100 / total;
        if pct <= 10 {
            MenuColor::LightRed
        } else if pct <= 50 {
            MenuColor::LightYellow
        } else if pct <= 90 {
            MenuColor::LightGreen
        } else {
            MenuColor::LightCyan
        }
    }
}

/// The catalog entries of one field, in catalog order.
pub open spec fn field_entries_spec(rs: Seq<Research>, fid: Seq<char>) -> Seq<Research>
    decreases rs.len(),
{
    if rs.len() == 0 {
        Seq::empty()
    } else {
        let rest = field_entries_spec(rs.drop_last(), fid);
        if rs.last().field@ == fid {
            rest.push(rs.last())
        } else {
            rest
        }
    }
}

/// Completion percentage: progress over cost, zero when unknown or not
/// started.
pub open spec fn progress_percent_spec(m: ResearchManager, id: Seq<char>) -> int {
    match find_research_spec(m.researches@, id) {
        Some(r) => match find_progress_spec(m.progress@, id) {
            Some(p) => p.progress as int * 100 / (r.cost as int),
            None => 0,
        },
        None => 0,
    }
}

/// Appending a fresh record for an unstarted catalog research keeps the
/// manager well formed.
proof fn lemma_start_preserves_wf(m0: ResearchManager, m1: ResearchManager, id: Seq<char>)
    requires
        m0.wf(),
        m1.researches == m0.researches,
        m1.fields == m0.fields,
        m1.progress@.len() == m0.progress@.len() + 1,
        m1.progress@.drop_last() == m0.progress@,
        m1.progress@.last().id@ == id,
        m1.progress@.last().progress == 0,
        m1.progress@.last().speed == 1,
        !m1.progress@.last().is_finished,
        find_research_spec(m0.researches@, id) is Some,
        !has_progress_spec(m0.progress@, id),
    ensures
        m1.wf(),
{
    let n = m0.progress@.len() as int;
    assert forall|j: int| 0 <= j < n implies m1.progress@[j] == #[trigger] m0.progress@[j] by {
        assert(m1.progress@.drop_last()[j] == m0.progress@[j]);
    }
    assert forall|i: int, j: int| 0 <= i < j < m1.progress@.len() implies (
    #[trigger] m1.progress@[i].id@) != (#[trigger] m1.progress@[j].id@) by {
        assert(m1.progress@[i] == m0.progress@[i]);
        if j < n {
            assert(m1.progress@[j] == m0.progress@[j]);
            assert(m0.progress@[i].id@ != m0.progress@[j].id@);
        } else {
            assert(m1.progress@[j] == m1.progress@.last());
            if m1.progress@[i].id@ == id {
                lemma_present_found(m0.progress@, id, i);
            }
        }
    }
    assert forall|i: int| 0 <= i < m1.progress@.len() implies match find_research_spec(
        m1.researches@,
        (#[trigger] m1.progress@[i]).id@,
    ) {
        Some(r) => m1.progress@[i].progress <= r.cost && (m1.progress@[i].is_finished
            <==> m1.progress@[i].progress == r.cost),
        None => false,
    } by {
        if i < n {
            assert(m1.progress@[i] == m0.progress@[i]);
        } else {
            let r = find_research_spec(m0.researches@, id)->Some_0;
            assert(r.cost >= 1) by {
                lemma_find_research_in_catalog(m0.researches@, id);
            }
        }
    }
    assert forall|i: int| 0 <= i < m1.progress@.len() implies (#[trigger] m1.progress@[i]).speed
        == 1 by {
        if i < n {
            assert(m1.progress@[i] == m0.progress@[i]);
        }
    }
}

/// Whatever the search spec returns is one of the catalog entries, so it
/// obeys the catalog's validity bounds.
proof fn lemma_find_research_in_catalog(rs: Seq<Research>, id: Seq<char>)
    requires
        catalog_valid_spec(rs),
        find_research_spec(rs, id) is Some,
    ensures
        find_research_spec(rs, id)->Some_0.cost >= 1,
    decreases rs.len(),
{
    if rs.len() > 0 && rs[0].id@ != id {
        assert(catalog_valid_spec(rs.drop_first())) by {
            assert(forall|j: int|
                0 <= j < rs.drop_first().len() ==> #[trigger] rs.drop_first()[j] == rs[j + 1]);
        }
        lemma_find_research_in_catalog(rs.drop_first(), id);
    }
}

/// Ticking every record keeps the manager well formed.
proof fn lemma_tick_preserves_wf(m0: ResearchManager, m1: ResearchManager)
    requires
        m0.wf(),
        m1.researches == m0.researches,
        m1.fields == m0.fields,
        m1.progress@.len() == m0.progress@.len(),
        forall|i: int|
            0 <= i < m0.progress@.len() ==> m1.progress@[i] == tick_record_spec(
                m0.researches@,
                #[trigger] m0.progress@[i],
            ),
    ensures
        m1.wf(),
{
    assert(forall|i: int|
        0 <= i < m1.progress@.len() ==> (#[trigger] m1.progress@[i]).id@ == m0.progress@[i].id@);
}

/// Law: starting the same research twice leaves exactly one progress
/// record for it.  Whatever happened on the second call (by then a record
/// exists, so it was a no-op), the record count for the id after two
/// start steps from a state without a record is exactly one.
pub proof fn lemma_start_research_idempotent(
    ps0: Seq<ResearchProgress>,
    ps1: Seq<ResearchProgress>,
    ps2: Seq<ResearchProgress>,
    id: Seq<char>,
    can1: bool,
    can2: bool,
)
    requires
        !has_progress_spec(ps0, id),
        can1,
        start_step_spec(ps0, ps1, id, can1),
        start_step_spec(ps1, ps2, id, can2),
        !can2 ==> ps2 == ps1,
        can2 ==> has_progress_spec(ps1, id) == false,
    ensures
        count_records_spec(ps2, id) == 1,
{
    lemma_count_push(ps0, ps1, id);
    assert(has_progress_spec(ps1, id)) by {
        lemma_count_has(ps1, id);
    }
    assert(!can2);
    assert(count_records_spec(ps2, id) == count_records_spec(ps1, id));
}

/// Number of progress records carrying the given id.
pub open spec fn count_records_spec(ps: Seq<ResearchProgress>, id: Seq<char>) -> int
    decreases ps.len(),
{
    if ps.len() == 0 {
        0
    } else {
        count_records_spec(ps.drop_last(), id) + if ps.last().id@ == id {
            1int
        } else {
            0int
        }
    }
}

/// A record-free state has count zero; pushing the record makes it one.
proof fn lemma_count_push(ps0: Seq<ResearchProgress>, ps1: Seq<ResearchProgress>, id: Seq<char>)
    requires
        !has_progress_spec(ps0, id),
        ps1.len() == ps0.len() + 1,
        ps1.drop_last() == ps0,
        ps1.last().id@ == id,
    ensures
        count_records_spec(ps1, id) == 1,
{
    lemma_count_zero_when_absent(ps0, id);
}

/// No record for the id means a zero count.
proof fn lemma_count_zero_when_absent(ps: Seq<ResearchProgress>, id: Seq<char>)
    requires
        !has_progress_spec(ps, id),
    ensures
        count_records_spec(ps, id) == 0,
    decreases ps.len(),
{
    if ps.len() > 0 {
        lemma_drop_last_absent(ps, id);
        lemma_count_zero_when_absent(ps.drop_last(), id);
        if ps.last().id@ == id {
            lemma_present_found(ps, id, ps.len() - 1);
            assert(false);
        }
    }
}

/// A positive count means some record carries the id.
proof fn lemma_count_has(ps: Seq<ResearchProgress>, id: Seq<char>)
    requires
        count_records_spec(ps, id) >= 1,
    ensures
        has_progress_spec(ps, id),
    decreases ps.len(),
{
    if ps.len() > 0 {
        if ps.last().id@ == id {
            lemma_present_found(ps, id, ps.len() - 1);
        } else {
            lemma_count_nonneg(ps.drop_last(), id);
            lemma_count_has(ps.drop_last(), id);
            let k = choose|k: int|
                0 <= k < ps.drop_last().len() && ps.drop_last()[k].id@ == id
                    && find_progress_spec(ps.drop_last(), id) is Some;
            lemma_found_present(ps.drop_last(), id);
            let w = choose|w: int| 0 <= w < ps.drop_last().len() && ps.drop_last()[w].id@ == id;
            lemma_present_found(ps, id, w);
        }
    }
}

/// Counts are never negative.
proof fn lemma_count_nonneg(ps: Seq<ResearchProgress>, id: Seq<char>)
    ensures
        count_records_spec(ps, id) >= 0,
    decreases ps.len(),
{
    if ps.len() > 0 {
        lemma_count_nonneg(ps.drop_last(), id);
    }
}

/// A record with the id at any index makes the search succeed.
proof fn lemma_present_found(ps: Seq<ResearchProgress>, id: Seq<char>, i: int)
    requires
        0 <= i < ps.len(),
        ps[i].id@ == id,
    ensures
        has_progress_spec(ps, id),
    decreases i,
{
    if ps[0].id@ == id {
    } else {
        assert(ps.drop_first()[i - 1] == ps[i]);
        lemma_present_found(ps.drop_first(), id, i - 1);
    }
}

/// A successful search means some record carries the id.
proof fn lemma_found_present(ps: Seq<ResearchProgress>, id: Seq<char>)
    requires
        has_progress_spec(ps, id),
    ensures
        exists|k: int| 0 <= k < ps.len() && (#[trigger] ps[k].id@) == id,
    decreases ps.len(),
{
    if ps.len() > 0 {
        if ps[0].id@ == id {
        } else {
            lemma_found_present(ps.drop_first(), id);
            let k = choose|k: int|
                0 <= k < ps.drop_first().len() && (#[trigger] ps.drop_first()[k].id@) == id;
            assert(ps[k + 1].id@ == id);
        }
    }
}

/// Dropping the last record of a sequence without the id leaves a
/// sequence without the id.
proof fn lemma_drop_last_absent(ps: Seq<ResearchProgress>, id: Seq<char>)
    requires
        !has_progress_spec(ps, id),
        ps.len() > 0,
    ensures
        !has_progress_spec(ps.drop_last(), id),
{
    if has_progress_spec(ps.drop_last(), id) {
        lemma_found_present(ps.drop_last(), id);
        let k = choose|k: int|
            0 <= k < ps.drop_last().len() && (#[trigger] ps.drop_last()[k].id@) == id;
        lemma_present_found(ps, id, k);
    }
}

/// Law: in a well-formed manager the finished flag means exactly that
/// the record's accumulated progress has reached its research's cost, so
/// prerequisite gating really is gating on `progress == cost`.
pub proof fn lemma_finished_means_cost_reached(m: ResearchManager, id: Seq<char>)
    requires
        m.wf(),
        finished_spec(m.progress@, id),
    ensures
        match find_progress_spec(m.progress@, id) {
            Some(p) => match find_research_spec(m.researches@, id) {
                Some(r) => p.progress == r.cost,
                None => false,
            },
            None => false,
        },
{
    lemma_found_present(m.progress@, id);
    let k = choose|k: int| 0 <= k < m.progress@.len() && (#[trigger] m.progress@[k].id@) == id;
    assert(forall|j: int| 0 <= j < k ==> (#[trigger] m.progress@[j].id@) != id);
    lemma_find_progress_at(m.progress@, id, k);
}

/// Law: with a non-empty required-ALL list, prerequisites are
/// unsatisfied while any of its ids is unfinished.
pub proof fn lemma_unmet_required_all_blocks(
    ps: Seq<ResearchProgress>,
    r: Research,
    k: int,
)
    requires
        0 <= k < r.required_all@.len(),
        !finished_spec(ps, r.required_all@[k]@),
    ensures
        !requirements_satisfied_spec(ps, r),
{
}

/// Law: a research with no prerequisites at all is always satisfied.
pub proof fn lemma_no_prerequisites_always_satisfied(ps: Seq<ResearchProgress>, r: Research)
    requires
        r.required_all@.len() == 0,
        r.required_any@.len() == 0,
    ensures
        requirements_satisfied_spec(ps, r),
{
}

} // verus!
