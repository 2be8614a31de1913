//! The table of interaction coefficients between species.

use vstd::prelude::*;

verus! {

/// A square table of fixed-point coefficients. The entry in row `i`, column
/// `j` weighs the force that a particle of species `i` receives from one of
/// species `j`; the table need not be symmetric.
#[derive(Clone, Debug)]
pub struct Relation {
    table: Vec<Vec<i64>>,
}

impl View for Relation {
    type V = Seq<Seq<i64>>;

    /// The rows of the table.
    closed spec fn view(&self) -> Seq<Seq<i64>> {
        Seq::new(self.table@.len(), |i: int| self.table@[i]@)
    }
}

/// The rows `t` with the entry in row `c`, column `r` overwritten by `v`.
pub open spec fn written(t: Seq<Seq<i64>>, v: i64, c: int, r: int) -> Seq<Seq<i64>> {
    t.update(c, t[c].update(r, v))
}

/// Reading the entry that was just written finds the value written.
pub proof fn lemma_written_entry(t: Seq<Seq<i64>>, v: i64, c: int, r: int)
    requires
        0 <= c < t.len(),
        0 <= r < t[c].len(),
    ensures
        written(t, v, c, r)[c][r] == v,
{
}

/// Writing one entry leaves every other entry as it was; in particular the
/// entry for the opposite direction between two different species.
pub proof fn lemma_written_elsewhere(t: Seq<Seq<i64>>, v: i64, c: int, r: int, i: int, j: int)
    requires
        0 <= c < t.len(),
        0 <= r < t[c].len(),
        0 <= i < t.len(),
        0 <= j < t[i].len(),
        i != c || j != r,
    ensures
        written(t, v, c, r)[i][j] == t[i][j],
{
}

impl Relation {
    /// The table is square.
    pub open spec fn wf(&self) -> bool {
        forall|i: int| 0 <= i < self@.len() ==> (#[trigger] self@[i]).len() == self@.len()
    }

    /// The number of species.
    pub open spec fn species_count(&self) -> nat {
        self@.len()
    }

    /// The coefficient in row `i`, column `j`.
    pub open spec fn entry(&self, i: int, j: int) -> i64 {
        self@[i][j]
    }

    /// Whether this table is `before` with the entry in row `c`, column `r`
    /// overwritten by `v`: that entry reads `v`, every other entry reads as
    /// before.
    pub open spec fn rewritten_from(&self, before: &Relation, v: i64, c: int, r: int) -> bool {
        &&& self@ == written(before@, v, c, r)
        &&& self.entry(c, r) == v
        &&& forall|i: int, j: int|
            0 <= i < before.species_count() && 0 <= j < before.species_count() && (i != c || j
                != r) ==> #[trigger] self.entry(i, j) == before.entry(i, j)
    }

    /// A table for `s` species in which no pair interacts.
    pub fn new(s: usize) -> (r: Self)
        ensures
            r.wf(),
            r.species_count() == s,
            forall|i: int, j: int| 0 <= i < s && 0 <= j < s ==> r.entry(i, j) == 0,
    {
        let mut table: Vec<Vec<i64>> = Vec::new();
        let mut i: usize = 0;
        while i < s
            invariant
                i <= s,
                table@.len() == i,
                forall|k: int| 0 <= k < i ==> (#[trigger] table@[k])@.len() == s,
                forall|k: int, j: int| 0 <= k < i && 0 <= j < s ==> #[trigger] table@[k]@[j] == 0,
            decreases s - i,
        {
            let mut row: Vec<i64> = Vec::new();
            let mut j: usize = 0;
            while j < s
                invariant
                    j <= s,
                    row@.len() == j,
                    forall|k: int| 0 <= k < j ==> row@[k] == 0,
                decreases s - j,
            {
                row.push(0);
                j += 1;
            }
            table.push(row);
            i += 1;
        }
        Relation { table }
    }

    /// The number of species.
    pub fn size(&self) -> (n: usize)
        ensures
            n == self.species_count(),
    {
        self.table.len()
    }

    /// The coefficient for the force on species `c` from species `r`.
    pub fn get(&self, c: usize, r: usize) -> (v: i64)
        requires
            self.wf(),
            c < self.species_count(),
            r < self.species_count(),
        ensures
            v == self.entry(c as int, r as int),
    {
        assert(self@[c as int].len() == self@.len());
        self.table[c][r]
    }

    /// Overwrites the coefficient for the force on species `c` from species `r`.
    pub fn set(&mut self, v: i64, c: usize, r: usize)
        requires
            old(self).wf(),
            c < old(self).species_count(),
            r < old(self).species_count(),
        ensures
            final(self).wf(),
            final(self).species_count() == old(self).species_count(),
            final(self).rewritten_from(old(self), v, c as int, r as int),
    {
        assert(self@[c as int].len() == self@.len());
        self.table[c][r] = v;
        assert(self@ =~= old(self)@.update(c as int, old(self)@[c as int].update(r as int, v)));
    }
}

} // verus!
