use vstd::prelude::*;
use crate::band::{band, spec_band, Band};

verus! {

/// One row of the status table.
#[derive(Clone, Debug, PartialEq, Eq)]
pub struct ProtocolRecord {
    /// Stable identifier such as "TCP:443".
    pub name: String,
    /// Health score, 0 to 10 once probed.
    pub score: u8,
    /// What is being tested.
    pub detail: String,
    /// True until the first probe result arrives.
    pub pending: bool,
}

/// The mathematical value of a [`ProtocolRecord`].
pub struct RecordView {
    pub name: Seq<char>,
    pub score: u8,
    pub detail: Seq<char>,
    pub pending: bool,
}

impl View for ProtocolRecord {
    type V = RecordView;

    open spec fn view(&self) -> RecordView {
        RecordView {
            name: self.name@,
            score: self.score,
            detail: self.detail@,
            pending: self.pending,
        }
    }
}

/// The band of a row: pending rows have not been scored yet.
pub open spec fn record_band(r: RecordView) -> Band {
    if r.pending {
        Band::Pending
    } else {
        spec_band(r.score as int)
    }
}

/// The rows a freshly initialised table holds.
pub open spec fn initial_rows(names: Seq<Seq<char>>, details: Seq<Seq<char>>) -> Seq<RecordView> {
    Seq::new(
        names.len(),
        |i: int| RecordView { name: names[i], score: 0, detail: details[i], pending: true },
    )
}

/// The rows after writing `score` and `detail` into the row named `name`;
/// a name that no row carries leaves every row as it was.
pub open spec fn updated_rows(rows: Seq<RecordView>, name: Seq<char>, score: u8, detail: Seq<char>) -> Seq<
    RecordView,
> {
    Seq::new(
        rows.len(),
        |i: int|
            if rows[i].name == name {
                RecordView { name: rows[i].name, score, detail, pending: false }
            } else {
                rows[i]
            },
    )
}

impl ProtocolRecord {
    /// A copy of the row that keeps every field.
    pub fn duplicate(&self) -> (r: ProtocolRecord)
        ensures
            r@ == self@,
    {
        ProtocolRecord {
            name: self.name.clone(),
            score: self.score,
            detail: self.detail.clone(),
            pending: self.pending,
        }
    }

    /// The band derived from the score, or `Pending` before the first probe.
    pub fn band(&self) -> (b: Band)
        ensures
            b == record_band(self@),
    {
        if self.pending {
            Band::Pending
        } else {
            band(self.score)
        }
    }

    /// The band's label, as the dashboard shows it.
    pub fn status(&self) -> (r: String)
        ensures
            r@ == crate::band::spec_label(record_band(self@)),
    {
        self.band().label()
    }
}

/// The shared table of protocol records, kept in insertion order.
pub struct StatusTable {
    rows: Vec<ProtocolRecord>,
}

impl View for StatusTable {
    type V = Seq<RecordView>;

    closed spec fn view(&self) -> Seq<RecordView> {
        self.rows@.map_values(|r: ProtocolRecord| r@)
    }
}

impl StatusTable {
    /// One pending row with score 0 for each name, in the given order.
    pub fn initialize(names: &Vec<String>, details: &Vec<String>) -> (t: StatusTable)
        requires
            names.len() == details.len(),
        ensures
            t@ == initial_rows(names@.map_values(|s: String| s@), details@.map_values(|s: String| s@)),
    {
        let ghost want = initial_rows(
            names@.map_values(|s: String| s@),
            details@.map_values(|s: String| s@),
        );
        let mut rows: Vec<ProtocolRecord> = Vec::new();
        let mut i: usize = 0;
        while i < names.len()
            invariant
                names.len() == details.len(),
                want.len() == names.len(),
                i <= names.len(),
                rows@.len() == i,
                forall|j: int|
                    0 <= j < i ==> (#[trigger] rows@[j]).name@ == names@[j]@ && rows@[j].detail@
                        == details@[j]@ && rows@[j].score == 0 && rows@[j].pending,
            decreases names.len() - i,
        {
            let rec = ProtocolRecord {
                name: names[i].clone(),
                score: 0,
                detail: details[i].clone(),
                pending: true,
            };
            rows.push(rec);
            i = i + 1;
        }
        let t = StatusTable { rows };
        assert(t@ =~= want);
        t
    }

    pub fn len(&self) -> (n: usize)
        ensures
            n == self@.len(),
    {
        self.rows.len()
    }

    /// Writes `score` and `detail` into the row named `name`, marking it probed.
    /// An unknown name is ignored.
    pub fn update(&mut self, name: &str, score: u8, detail: &str)
        ensures
            final(self)@ == updated_rows(old(self)@, name@, score, detail@),
    {
        let ghost start = self@;
        let key = String::from_str(name);
        let mut i: usize = 0;
        while i < self.rows.len()
            invariant
                i <= self.rows@.len(),
                self.rows@.len() == start.len(),
                key@ == name@,
                forall|j: int|
                    0 <= j < i ==> #[trigger] self.rows@[j]@ == updated_rows(
                        start,
                        name@,
                        score,
                        detail@,
                    )[j],
                forall|j: int| i <= j < self.rows@.len() ==> #[trigger] self.rows@[j]@ == start[j],
            decreases self.rows.len() - i,
        {
            let is_match = self.rows[i].name.eq(&key);
            assert(self.rows@[i as int]@ == start[i as int]);
            assert(is_match == (self.rows@[i as int].name@ == key@));
            if is_match {
                let rec = ProtocolRecord {
                    name: self.rows[i].name.clone(),
                    score,
                    detail: String::from_str(detail),
                    pending: false,
                };
                self.rows.set(i, rec);
            }
            assert(self.rows@[i as int]@ == updated_rows(start, name@, score, detail@)[i as int]);
            i = i + 1;
        }
        assert(self@ =~= updated_rows(start, name@, score, detail@));
    }

    /// A consistent copy of every row, in table order.
    pub fn snapshot(&self) -> (r: Vec<ProtocolRecord>)
        ensures
            r@.len() == self@.len(),
            forall|i: int| 0 <= i < r@.len() ==> (#[trigger] r@[i])@ == self@[i],
    {
        let mut out: Vec<ProtocolRecord> = Vec::new();
        let mut i: usize = 0;
        while i < self.rows.len()
            invariant
                i <= self.rows@.len(),
                out@.len() == i,
                forall|j: int| 0 <= j < i ==> #[trigger] out@[j]@ == self.rows@[j]@,
            decreases self.rows.len() - i,
        {
            out.push(self.rows[i].duplicate());
            i = i + 1;
        }
        out
    }
}

/// Writing the same name, score and detail twice leaves the table as one write does.
pub proof fn lemma_update_idempotent(rows: Seq<RecordView>, name: Seq<char>, score: u8, detail: Seq<char>)
    ensures
        updated_rows(updated_rows(rows, name, score, detail), name, score, detail) == updated_rows(
            rows,
            name,
            score,
            detail,
        ),
{
    assert(updated_rows(updated_rows(rows, name, score, detail), name, score, detail) =~= updated_rows(
        rows,
        name,
        score,
        detail,
    ));
}

/// An update never adds, removes, renames or reorders rows.
pub proof fn lemma_update_keeps_names(rows: Seq<RecordView>, name: Seq<char>, score: u8, detail: Seq<char>)
    ensures
        updated_rows(rows, name, score, detail).len() == rows.len(),
        forall|j: int|
            0 <= j < rows.len() ==> (#[trigger] updated_rows(rows, name, score, detail)[j]).name
                == rows[j].name,
{
}

/// A write to a name that no row carries changes nothing.
pub proof fn lemma_update_unknown_name(rows: Seq<RecordView>, name: Seq<char>, score: u8, detail: Seq<char>)
    requires
        forall|j: int| 0 <= j < rows.len() ==> (#[trigger] rows[j]).name != name,
    ensures
        updated_rows(rows, name, score, detail) == rows,
{
    assert(updated_rows(rows, name, score, detail) =~= rows);
}

/// Every row seen after an update is either the row as it was, or the whole new
/// record: the named row carries both the new score and the new detail, and every
/// other row is untouched.
pub proof fn lemma_update_never_tears(
    rows: Seq<RecordView>,
    name: Seq<char>,
    score: u8,
    detail: Seq<char>,
    j: int,
)
    requires
        0 <= j < rows.len(),
    ensures
        rows[j].name == name ==> updated_rows(rows, name, score, detail)[j] == (RecordView {
            name,
            score,
            detail,
            pending: false,
        }),
        rows[j].name != name ==> updated_rows(rows, name, score, detail)[j] == rows[j],
{
}

} // verus!
