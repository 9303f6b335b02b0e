//! The pipeline driver: takes the rows in order, runs the enrichment of each
//! parsed one, and collects the completed records into one JSON array.

use vstd::prelude::*;
use crate::audio::artifact_path;
use crate::enrich::{answers, is_fresh, Action, Enrichment, Event, Phase};
use crate::error::{EnrichError, Failure, RowError};
use crate::record::{record_json, to_json, CountryCapital};
use crate::rows::parse_rows;

verus! {

/// The elements joined by a comma and a line break, nothing after the last.
pub open spec fn join_elements(es: Seq<Seq<char>>) -> Seq<char>
    decreases es.len(),
{
    if es.len() == 0 {
        Seq::empty()
    } else if es.len() == 1 {
        es[0]
    } else {
        join_elements(es.drop_last()) + ",\n"@ + es.last()
    }
}

/// A JSON array with one element per line.
pub open spec fn json_array(es: Seq<Seq<char>>) -> Seq<char> {
    "[\n"@ + join_elements(es) + "\n]\n"@
}

pub open spec fn elements_of(records: Seq<CountryCapital>) -> Seq<Seq<char>> {
    records.map_values(|r: CountryCapital| record_json(r))
}

/// A record whose coordinate and both audio paths are merged.
pub open spec fn is_complete(r: CountryCapital) -> bool {
    r.wf() && r.coordinate is Some && r.country_audio_filename is Some
        && r.capital_audio_filename is Some
}

pub open spec fn ids_increasing(records: Seq<CountryCapital>) -> bool {
    forall|i: int, j: int| 0 <= i < j < records.len() ==> records[i].id < records[j].id
}

pub open spec fn pending_ok(pending: Seq<Result<CountryCapital, RowError>>, seen: int) -> bool {
    &&& forall|i: int|
        #![trigger pending[i]]
        0 <= i < pending.len() ==> (pending[i] matches Ok(r) ==> r.wf() && is_fresh(r) && r.id
            > seen)
    &&& forall|i: int, j: int|
        #![trigger pending[i], pending[j]]
        0 <= i < j < pending.len() ==> (pending[i] matches Ok(a) ==> (pending[j] matches Ok(b)
            ==> a.id < b.id))
}

/// From the rows `before`, `p` has skipped those that did not parse and
/// started the first one that did, handing out its first action `a`; or, where
/// none did, taken them all and handed out `None`.
pub open spec fn takes_next(before: Seq<Result<CountryCapital, RowError>>, p: Pipeline, a: Option<Action>) -> bool {
    let taken = before.len() - p.pending@.len();
    &&& p.pending@.len() <= before.len()
    &&& p.pending@ == before.skip(taken)
    &&& forall|i: int|
        0 <= i < taken - (if a is Some { 1int } else { 0 }) ==> #[trigger] before[i] is Err
    &&& match a {
        None => p.current is None && p.pending@.len() == 0,
        Some(act) => p.current matches Some(e) && e.phase == Phase::Locate && act == (Action::Geocode {
            city: e.record.capital,
            country_code: e.record.country_code,
        }) && before[taken - 1] == Ok::<CountryCapital, RowError>(e.record),
    }
}

pub struct Pipeline {
    /// Rows not yet taken, in input order.
    pub pending: Vec<Result<CountryCapital, RowError>>,
    /// The enrichment under way, if any.
    pub current: Option<Enrichment>,
    /// The emitted elements, joined.
    pub body: String,
    /// Whether any record has been emitted.
    pub any_emitted: bool,
    /// The number of rows that did not parse or whose enrichment failed.
    pub skipped: usize,
    /// Each such row, in order, with why it produced no element.
    pub failures: Vec<Failure>,
    /// Where the audio artifacts live.
    pub dir: String,
    /// The records emitted so far, in order.
    pub emitted: Ghost<Seq<CountryCapital>>,
    /// The number of input rows.
    pub total: Ghost<nat>,
    /// The id of the last record taken, 0 before the first.
    pub seen: Ghost<int>,
}

impl Pipeline {
    pub open spec fn wf(&self) -> bool {
        &&& self.body@ == join_elements(elements_of(self.emitted@))
        &&& self.any_emitted == (self.emitted@.len() > 0)
        &&& forall|i: int| 0 <= i < self.emitted@.len() ==> is_complete(#[trigger] self.emitted@[i])
        &&& ids_increasing(self.emitted@)
        &&& forall|i: int| 0 <= i < self.emitted@.len() ==> #[trigger] self.emitted@[i].id <= self.seen@
        &&& pending_ok(self.pending@, self.seen@)
        &&& self.skipped + self.emitted@.len() + self.pending@.len() + (if self.current is Some {
            1int
        } else {
            0
        }) == self.total@
        &&& self.total@ <= usize::MAX
        &&& self.failures@.len() == self.skipped
        &&& forall|i: int| 0 <= i < self.emitted@.len() ==> #[trigger] self.emitted@[i].id >= 1
        &&& self.seen@ >= 0
        &&& match self.current {
            Some(e) => {
                &&& e.wf()
                &&& e.record.id == self.seen@
                &&& e.record.id >= 1
                &&& forall|i: int| 0 <= i < self.emitted@.len() ==> #[trigger] self.emitted@[i].id < self.seen@
                &&& e.country_path@ == artifact_path(self.dir@, e.record.country@)
                &&& e.capital_path@ == artifact_path(self.dir@, e.record.capital@)
                &&& e.phase != Phase::Done
                &&& !(e.phase is Failed)
            },
            None => true,
        }
    }

    /// Reads the rows of `input`; their artifacts will live in `dir`.
    pub fn new(input: &[u8], dir: &str) -> (p: Pipeline)
        ensures
            p.wf(),
            p.current is None,
            p.emitted@.len() == 0,
            p.total@ == crate::rows::csv_rows_of(input@).len(),
            p.dir@ == dir@,
            p.pending@.len() == crate::rows::csv_rows_of(input@).len(),
            forall|i: int|
                0 <= i < p.pending@.len() ==> crate::rows::is_row_outcome(
                    crate::rows::csv_header_of(input@),
                    crate::rows::csv_rows_of(input@)[i],
                    (i + 1) as u64,
                    #[trigger] p.pending@[i],
                ),
    {
        let pending = parse_rows(input);
        let n = pending.len();
        proof {
            assert(pending@.len() == n);
            assert forall|i: int, j: int|
                #![trigger pending@[i], pending@[j]]
                0 <= i < j < pending@.len() implies (pending@[i] matches Ok(a) ==> (pending@[j] matches Ok(b) ==> a.id < b.id)) by {
                assert(crate::rows::is_row_outcome(crate::rows::csv_header_of(input@), crate::rows::csv_rows_of(input@)[i], (i + 1) as u64, pending@[i]));
                assert(crate::rows::is_row_outcome(crate::rows::csv_header_of(input@), crate::rows::csv_rows_of(input@)[j], (j + 1) as u64, pending@[j]));
                assert((i + 1) as u64 == i + 1);
                assert((j + 1) as u64 == j + 1);
            }
            assert forall|i: int|
                #![trigger pending@[i]]
                0 <= i < pending@.len() implies (pending@[i] matches Ok(r) ==> r.wf() && is_fresh(r) && r.id > 0) by {
                assert(crate::rows::is_row_outcome(crate::rows::csv_header_of(input@), crate::rows::csv_rows_of(input@)[i], (i + 1) as u64, pending@[i]));
                assert((i + 1) as u64 == i + 1);
            }
            assert(elements_of(Seq::empty()) =~= Seq::empty());
        }
        Pipeline {
            pending,
            current: None,
            body: String::new(),
            any_emitted: false,
            skipped: 0,
            failures: Vec::new(),
            dir: String::from_str(dir),
            emitted: Ghost(Seq::empty()),
            total: Ghost(crate::rows::csv_rows_of(input@).len()),
            seen: Ghost(0),
        }
    }

    /// Skips rows that did not parse and starts the next record, handing out
    /// its first action; `None` once no row is left.
    pub fn advance(&mut self) -> (a: Option<Action>)
        requires
            old(self).wf(),
            old(self).current is None,
        ensures
            final(self).wf(),
            final(self).emitted == old(self).emitted,
            final(self).total == old(self).total,
            final(self).dir == old(self).dir,
            final(self).body == old(self).body,
            final(self).skipped + final(self).pending@.len() + (if a is Some { 1int } else { 0 })
                == old(self).skipped + old(self).pending@.len(),
            takes_next(old(self).pending@, *final(self), a),
    {
        let ghost start = self.pending@;
        while self.pending.len() > 0
            invariant
                self.wf(),
                self.current is None,
                self.emitted == old(self).emitted,
                self.total == old(self).total,
                self.dir == old(self).dir,
                self.body == old(self).body,
                self.any_emitted == old(self).any_emitted,
                self.skipped + self.pending@.len() == old(self).skipped + old(self).pending@.len(),
                start == old(self).pending@,
                self.pending@.len() <= start.len(),
                self.pending@ == start.skip(start.len() - self.pending@.len()),
                forall|i: int| 0 <= i < start.len() - self.pending@.len() ==> #[trigger] start[i] is Err,
            decreases self.pending@.len(),
        {
            let ghost before = self.pending@;
            let row = self.pending.remove(0);
            proof {
                assert(self.pending@ =~= start.skip(start.len() - self.pending@.len()));
                assert(before[0] == row);
                assert(pending_ok(self.pending@, self.seen@)) by {
                    assert forall|i: int| #![trigger self.pending@[i]] 0 <= i < self.pending@.len() implies (self.pending@[i] matches Ok(r) ==> r.wf() && is_fresh(r) && r.id > self.seen@) by {
                        assert(self.pending@[i] == before[i + 1]);
                    }
                    assert forall|i: int, j: int| #![trigger self.pending@[i], self.pending@[j]] 0 <= i < j < self.pending@.len() implies (self.pending@[i] matches Ok(a) ==> (self.pending@[j] matches Ok(b) ==> a.id < b.id)) by {
                        assert(self.pending@[i] == before[i + 1]);
                        assert(self.pending@[j] == before[j + 1]);
                    }
                }
            }
            match row {
                Ok(r) => {
                    proof {
                        assert forall|i: int| #![trigger self.pending@[i]] 0 <= i < self.pending@.len() implies (self.pending@[i] matches Ok(b) ==> b.id > r.id) by {
                            assert(self.pending@[i] == before[i + 1]);
                        }
                        self.seen@ = r.id as int;
                    }
                    let e = Enrichment::new(r, self.dir.as_str());
                    let act = e.first_action();
                    self.current = Some(e);
                    return Some(act);
                },
                Err(err) => {
                    self.skipped = self.skipped + 1;
                    self.failures.push(Failure::Row(err));
                },
            }
        }
        None
    }

    /// Whether `ev` answers the action handed out last.
    pub fn accepts(&self, ev: &Event) -> (r: bool)
        ensures
            r == (self.current matches Some(e) && answers(e.phase, *ev)),
    {
        match &self.current {
            Some(e) => e.accepts(ev),
            None => false,
        }
    }

    /// Takes the answer to the last action and hands out the next one; when
    /// the current record ends, emits it if it is complete and moves on.
    /// `None` once every row has been taken.
    pub fn step(&mut self, ev: Event) -> (a: Option<Action>)
        requires
            old(self).wf(),
            old(self).current matches Some(e) && answers(e.phase, ev),
        ensures
            final(self).wf(),
            final(self).total == old(self).total,
            final(self).dir == old(self).dir,
            exists|ne: Enrichment, na: Option<Action>|
                #[trigger] Enrichment::is_step(old(self).current->Some_0, ev, ne, na) && match na {
                    Some(_) => final(self).current == Some(ne) && a == na && final(self).emitted
                        == old(self).emitted && final(self).pending == old(self).pending,
                    None => {
                        &&& if ne.phase == Phase::Done {
                            final(self).emitted@ == old(self).emitted@.push(ne.record)
                        } else {
                            final(self).emitted@ == old(self).emitted@
                        }
                        &&& takes_next(old(self).pending@, *final(self), a)
                    },
                },
            a is None ==> final(self).current is None && final(self).pending@.len() == 0,
    {
        let ghost ev0 = ev;
        let mut e = match self.current.take() {
            Some(e) => e,
            None => {
                return None;
            },
        };
        let ghost e0 = e;
        let a = e.step(ev);
        let ghost e1 = e;
        proof {
            assert(Enrichment::is_step(e0, ev0, e1, a));
        }
        if a.is_some() {
            proof {
                if e.phase == Phase::Done || e.phase is Failed {
                    assert(Enrichment::is_step(e0, ev0, e, a));
                }
            }
            self.current = Some(e);
            a
        } else {
            if e.is_done() {
                let element = to_json(&e.record);
                if self.any_emitted {
                    self.body.append(",\n");
                }
                self.body.append(element.as_str());
                self.any_emitted = true;
                proof {
                    let old_emitted = self.emitted@;
                    let new_emitted = old_emitted.push(e.record);
                    assert(elements_of(new_emitted) =~= elements_of(old_emitted).push(record_json(e.record)));
                    assert(elements_of(new_emitted).drop_last() =~= elements_of(old_emitted));
                    if old_emitted.len() == 0 {
                        assert(elements_of(old_emitted) =~= Seq::empty());
                        assert(join_elements(elements_of(old_emitted)) =~= Seq::empty());
                        assert(self.body@ =~= record_json(e.record));
                    }
                    self.emitted@ = new_emitted;
                    assert(new_emitted.drop_last() =~= old_emitted);
                }
            } else {
                let err = match e.phase {
                    Phase::Failed(err) => err,
                    _ => EnrichError::NotFound,
                };
                self.skipped = self.skipped + 1;
                self.failures.push(Failure::Record(e.record.id, err));
            }
            self.advance()
        }
    }

    /// The output document: every emitted record, in order, in one array.
    pub fn output(&self) -> (r: String)
        requires
            self.wf(),
        ensures
            r@ == json_array(elements_of(self.emitted@)),
    {
        let mut s = String::from_str("[\n");
        s.append(self.body.as_str());
        s.append("\n]\n");
        s
    }
}

/// What the output holds at any point of a run: one element per emitted
/// record, no more records than input rows, ids strictly increasing in row
/// order, and only records with every enrichment merged.
pub proof fn lemma_output_records(p: Pipeline)
    requires
        p.wf(),
    ensures
        p.emitted@.len() <= p.total@,
        forall|i: int| 0 <= i < p.emitted@.len() ==> #[trigger] p.emitted@[i].id >= 1,
        elements_of(p.emitted@).len() == p.emitted@.len(),
        forall|i: int, j: int|
            0 <= i < j < p.emitted@.len() ==> p.emitted@[i].id < p.emitted@[j].id,
        forall|i: int| 0 <= i < p.emitted@.len() ==> is_complete(#[trigger] p.emitted@[i]),
{
}

/// Once every row has been taken, each input row has either been emitted or
/// been skipped, so the output holds exactly the rows that parsed and were
/// enriched.
pub proof fn lemma_every_row_accounted(p: Pipeline)
    requires
        p.wf(),
        p.current is None,
        p.pending@.len() == 0,
    ensures
        p.emitted@.len() + p.skipped == p.total@,
{
}

/// The array framing: an opening bracket, the elements separated by exactly
/// one comma each, and a closing bracket; adding an element adds one
/// separator, and none before the first element.
pub proof fn lemma_array_framing(es: Seq<Seq<char>>, x: Seq<char>)
    ensures
        json_array(es) == "[\n"@ + join_elements(es) + "\n]\n"@,
        join_elements(es.push(x)) == if es.len() == 0 {
            x
        } else {
            join_elements(es) + ",\n"@ + x
        },
{
    assert(es.push(x).drop_last() =~= es);
}

} // verus!
