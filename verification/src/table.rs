//! The table that stands behind a generated enumeration, and the four
//! capabilities that come with it: the count of cases, iteration over them in
//! either direction, projection of a case to its row, and reconstruction of a
//! case from a raw number.

use vstd::prelude::*;

verus! {

/// A case of a table, known by its ordinal: its position among the data cases
/// in declaration order, counted from zero. The ordinal is at once the value
/// stored for the case and the index of its row.
#[derive(Clone, Copy, Debug, PartialEq, Eq, Hash, Structural)]
pub struct Ordinal {
    pub index: usize,
}

impl Ordinal {
    pub open spec fn spec_raw(self) -> u64 {
        self.index as u64
    }

    /// The raw number stored for this case.
    pub fn raw(self) -> (raw: u64)
        ensures
            raw == self.spec_raw(),
            raw == self.index,
    {
        self.index as u64
    }
}

/// The cases of a table of `count` rows, in declaration order.
pub open spec fn ordinals(count: nat) -> Seq<Ordinal> {
    Seq::new(count, |i: int| Ordinal { index: i as usize })
}

/// What reconstruction from `raw` gives in a table of `count` rows: the case
/// with that ordinal where there is one, else the raw number handed back.
pub open spec fn reconstruction(count: nat, raw: u64) -> Result<Ordinal, u64> {
    if raw < count {
        Ok(Ordinal { index: raw as usize })
    } else {
        Err(raw)
    }
}

/// The row that projection gives for `case` in a table of these rows.
pub open spec fn projection<R>(rows: Seq<R>, case: Ordinal) -> R {
    rows[case.index as int]
}

/// The cases from ordinal `front` up to, not including, ordinal `back`.
pub open spec fn ordinals_between(front: usize, back: usize) -> Seq<Ordinal> {
    if front <= back {
        Seq::new((back - front) as nat, |i: int| Ordinal { index: (front + i) as usize })
    } else {
        Seq::empty()
    }
}

/// A walk over the cases of a table that can be advanced from either end.
/// Its view is the sequence of cases still to come, in declaration order.
pub struct CaseIter {
    front: usize,
    back: usize,
}

impl View for CaseIter {
    type V = Seq<Ordinal>;

    closed spec fn view(&self) -> Seq<Ordinal> {
        ordinals_between(self.front, self.back)
    }
}

impl CaseIter {
    /// A walk over all the cases of a table of `count` rows.
    pub fn over(count: usize) -> (walk: CaseIter)
        ensures
            walk@ == ordinals(count as nat),
    {
        let walk = CaseIter { front: 0, back: count };
        assert(walk@ =~= ordinals(count as nat));
        walk
    }

    /// Number of cases still to come.
    pub fn remaining(&self) -> (count: usize)
        ensures
            count == self@.len(),
    {
        if self.front <= self.back {
            self.back - self.front
        } else {
            0
        }
    }

    /// Takes the next case from the front.
    pub fn next(&mut self) -> (case: Option<Ordinal>)
        ensures
            old(self)@.len() > 0 ==> case == Some(old(self)@.first()) && final(self)@ == old(
                self,
            )@.drop_first(),
            old(self)@.len() == 0 ==> case is None && final(self)@ == old(self)@,
    {
        if self.front < self.back {
            let case = Ordinal { index: self.front };
            self.front = self.front + 1;
            assert(self@ =~= old(self)@.drop_first());
            Some(case)
        } else {
            None
        }
    }

    /// Takes the next case from the back.
    pub fn next_back(&mut self) -> (case: Option<Ordinal>)
        ensures
            old(self)@.len() > 0 ==> case == Some(old(self)@.last()) && final(self)@ == old(
                self,
            )@.drop_last(),
            old(self)@.len() == 0 ==> case is None && final(self)@ == old(self)@,
    {
        if self.front < self.back {
            self.back = self.back - 1;
            assert(self@ =~= old(self)@.drop_last());
            Some(Ordinal { index: self.back })
        } else {
            None
        }
    }
}

/// A table of one row per case, indexed by ordinal. Its view is the sequence
/// of its rows.
#[derive(Debug, PartialEq, Eq)]
pub struct Table<R> {
    rows: Vec<R>,
}

impl<R> View for Table<R> {
    type V = Seq<R>;

    closed spec fn view(&self) -> Seq<R> {
        self.rows@
    }
}

impl<R> Table<R> {
    /// The table whose rows are `rows`, in that order.
    pub fn new(rows: Vec<R>) -> (table: Table<R>)
        ensures
            table@ == rows@,
    {
        Table { rows }
    }

    /// A table has no more rows than can be counted.
    pub proof fn lemma_count_fits(self)
        ensures
            self@.len() <= usize::MAX,
    {
        assert(self.rows.len() == self.rows@.len());
    }

    /// Gives the rows back, in order.
    pub fn into_rows(self) -> (rows: Vec<R>)
        ensures
            rows@ == self@,
    {
        self.rows
    }

    /// The number of cases.
    pub fn count(&self) -> (count: usize)
        ensures
            count == self@.len(),
    {
        self.rows.len()
    }

    /// Whether `case` is a case of this table.
    pub open spec fn spec_has(&self, case: Ordinal) -> bool {
        case.index < self@.len()
    }

    pub fn has(&self, case: Ordinal) -> (has: bool)
        ensures
            has == self.spec_has(case),
    {
        case.index < self.rows.len()
    }

    /// Reconstructs a case from a raw number: the case with that ordinal when
    /// the number is less than the count, and the number itself, as the
    /// failure, when it is not.
    pub fn reconstruct(&self, raw: u64) -> (case: Result<Ordinal, u64>)
        ensures
            case == reconstruction(self@.len(), raw),
    {
        if raw < self.rows.len() as u64 {
            Ok(Ordinal { index: raw as usize })
        } else {
            Err(raw)
        }
    }

    /// The row of `case`: projection.
    pub fn payload(&self, case: Ordinal) -> (row: &R)
        requires
            self.spec_has(case),
        ensures
            *row == projection(self@, case),
    {
        &self.rows[case.index]
    }

    /// A walk over the cases, which starts with all of them still to come.
    pub fn iter(&self) -> (walk: CaseIter)
        ensures
            walk@ == ordinals(self@.len()),
    {
        CaseIter::over(self.rows.len())
    }

    /// The cases in declaration order: what a walk from the front collects.
    pub fn cases(&self) -> (cases: Vec<Ordinal>)
        ensures
            cases@ == ordinals(self@.len()),
    {
        let mut walk = self.iter();
        let mut cases: Vec<Ordinal> = Vec::new();
        loop
            invariant
                cases@ + walk@ == ordinals(self@.len()),
            ensures
                cases@ == ordinals(self@.len()),
            decreases walk@.len(),
        {
            let ghost before = walk@;
            let ghost collected = cases@;
            match walk.next() {
                Some(case) => {
                    cases.push(case);
                    assert(cases@ + walk@ =~= collected + before) by {
                        assert(before =~= seq![before.first()] + before.drop_first());
                    }
                },
                None => {
                    assert(cases@ + walk@ =~= cases@);
                    break ;
                },
            }
        }
        cases
    }

    /// The cases in reverse declaration order: what a walk from the back
    /// collects.
    pub fn cases_rev(&self) -> (cases: Vec<Ordinal>)
        ensures
            cases@ == ordinals(self@.len()).reverse(),
    {
        let mut walk = self.iter();
        let mut cases: Vec<Ordinal> = Vec::new();
        loop
            invariant
                walk@ + cases@.reverse() == ordinals(self@.len()),
            ensures
                cases@ == ordinals(self@.len()).reverse(),
            decreases walk@.len(),
        {
            let ghost before = walk@;
            let ghost collected = cases@;
            match walk.next_back() {
                Some(case) => {
                    cases.push(case);
                    assert(walk@ + cases@.reverse() =~= before + collected.reverse()) by {
                        assert(before =~= before.drop_last() + seq![before.last()]);
                        assert(cases@.reverse() =~= seq![case] + collected.reverse());
                    }
                },
                None => {
                    assert(walk@ + cases@.reverse() =~= cases@.reverse());
                    assert(cases@ =~= cases@.reverse().reverse());
                    break ;
                },
            }
        }
        cases
    }
}

} // verus!
