//! The rows of a data log, and the lazy sequence of records that they give.
//!
//! A log is comma-separated text under one header row. The rows are read by the `csv`
//! crate, one at a time and only when asked for; what a row means is up to a
//! [`RowDecoder`], one for each kind of sensor.

use vstd::prelude::*;
use vstd::string::*;
use crate::common::Timestamp;
use crate::error::{Flaw, ReadError, Source};
use crate::number::{is_float_literal, parse_u64, unsigned_of};
use crate::values::{literals, Real};

verus! {

/// `csv::StringRecordsIntoIter`, the iterator over the records of a reader. It is carried as
/// it is; what it still has to hand out is named by [`rows_ahead`].
#[verifier::external_type_specification]
#[verifier::external_body]
#[verifier::reject_recursive_types(R)]
pub struct ExStringRecordsIntoIter<R>(csv::StringRecordsIntoIter<R>);

/// `csv::Error`, the error of a reader. Nothing is read from it.
#[verifier::external_type_specification]
#[verifier::external_body]
pub struct ExCsvError(csv::Error);

/// The rows that `csv::Reader::from_reader(log).into_records()` hands out when it is
/// walked to its end, in their order: for each row its fields, or `None` where the reader
/// reports an error in place of the row. The header row is not among them.
pub uninterp spec fn log_rows(log: Seq<u8>) -> Seq<Option<Seq<Seq<char>>>>;

/// The rows that a reader has not handed out yet.
pub uninterp spec fn rows_ahead(reader: csv::StringRecordsIntoIter<&[u8]>) -> Seq<
    Option<Seq<Seq<char>>>,
>;

/// The fields of a row, as sequences of characters.
pub open spec fn row_view(fields: Vec<String>) -> Seq<Seq<char>> {
    fields@.map_values(|field: String| field@)
}

/// What a reader hands out for a row: its fields, or nothing where it reports an error.
pub open spec fn outcome_view(outcome: Result<Vec<String>, csv::Error>) -> Option<
    Seq<Seq<char>>,
> {
    match outcome {
        Ok(fields) => Some(row_view(fields)),
        Err(_) => None,
    }
}

/// Calls `csv::Reader::from_reader` on the bytes of a log, and `into_records` on the
/// reader. Nothing is read yet; the rows that lie ahead are those of [`log_rows`].
#[verifier::external_body]
fn open_log<'a>(log: &'a [u8]) -> (reader: csv::StringRecordsIntoIter<&'a [u8]>)
    ensures
        rows_ahead(reader) == log_rows(log@),
{
    csv::Reader::from_reader(log).into_records()
}

/// Calls `next` on the iterator of records. It hands out the first of the rows that lie
/// ahead, with each field copied into a `String`, and leaves the rest; at the end of the
/// log it returns `None`, this time and every time after.
#[verifier::external_body]
fn next_row<'a>(reader: &mut csv::StringRecordsIntoIter<&'a [u8]>) -> (r: Option<
    Result<Vec<String>, csv::Error>,
>)
    ensures
        r is None <==> rows_ahead(*old(reader)).len() == 0,
        r is None ==> rows_ahead(*final(reader)) == rows_ahead(*old(reader)),
        r is Some ==> outcome_view(r->Some_0) == rows_ahead(*old(reader))[0],
        r is Some ==> rows_ahead(*final(reader)) == rows_ahead(*old(reader)).drop_first(),
{
    reader.next().map(|row| row.map(|record| record.iter().map(|f| f.to_string()).collect()))
}

/// The number of the row after row `row`. Numbers stop at the greatest that fits.
pub open spec fn following(row: u64) -> u64 {
    if row < u64::MAX {
        (row + 1) as u64
    } else {
        row
    }
}

/// The number of the row that stands `steps` rows after row `row`.
pub open spec fn advanced(row: u64, steps: nat) -> u64 {
    if row + steps <= u64::MAX {
        (row + steps) as u64
    } else {
        u64::MAX
    }
}

/// Column `column` of a row is missing, or does not hold what it has to: an unsigned
/// integer in column 0, a floating-point literal in every other.
pub open spec fn bad_column(fields: Seq<Seq<char>>, column: int) -> bool {
    ||| column >= fields.len()
    ||| column == 0 && unsigned_of(fields[column]) is None
    ||| column > 0 && !is_float_literal(fields[column])
}

/// The first bad column of a row among the columns from `from` up to, not including,
/// `to`; `to` where all of them are good.
pub open spec fn first_bad_column(fields: Seq<Seq<char>>, from: int, to: int) -> int
    decreases to - from,
{
    if from >= to {
        to
    } else if bad_column(fields, from) {
        from
    } else {
        first_bad_column(fields, from + 1, to)
    }
}

/// What row number `row` gives where a sensor logs a timestamp and `count` real numbers:
/// the timestamp of column 0 and the literals of the `count` columns behind it, or the
/// first column that is bad.
pub open spec fn sample_of(fields: Seq<Seq<char>>, count: nat, row: u64) -> Result<
    (u64, Seq<Seq<char>>),
    ReadError,
> {
    let bad = first_bad_column(fields, 0, count as int + 1);
    if bad <= count {
        Err(ReadError::Malformed(Flaw::Column { row, column: bad as usize }))
    } else {
        Ok((unsigned_of(fields[0])->Some_0, fields.subrange(1, count as int + 1)))
    }
}

/// Where the columns up to `column` of a row are good, the first bad column from `column`
/// on is the first bad column of all.
proof fn lemma_first_bad_column_from(fields: Seq<Seq<char>>, column: int, to: int)
    requires
        0 <= column <= to,
        forall|k: int| 0 <= k < column ==> !bad_column(fields, k),
    ensures
        first_bad_column(fields, 0, to) == first_bad_column(fields, column, to),
    decreases column,
{
    if column > 0 {
        lemma_first_bad_column_from(fields, column - 1, to);
    }
}

/// Reads the timestamp of column 0 and the real numbers of the `count` columns behind it.
pub fn parse_sample(fields: &Vec<String>, count: usize, row: u64) -> (r: Result<
    (Timestamp, Vec<Real>),
    ReadError,
>)
    ensures
        match r {
            Ok((time, values)) => sample_of(row_view(*fields), count as nat, row) == Ok::<
                (u64, Seq<Seq<char>>),
                ReadError,
            >((time@, literals(values@))),
            Err(e) => sample_of(row_view(*fields), count as nat, row) == Err::<
                (u64, Seq<Seq<char>>),
                ReadError,
            >(e),
        },
        r matches Ok((_, values)) ==> values@.len() == count,
{
    let ghost texts = row_view(*fields);
    if fields.len() == 0 {
        return Err(ReadError::Malformed(Flaw::Column { row, column: 0 }));
    }
    let time = match parse_u64(fields[0].as_str()) {
        Some(ns) => Timestamp::from_nsecs(ns),
        None => {
            return Err(ReadError::Malformed(Flaw::Column { row, column: 0 }));
        },
    };
    let mut values: Vec<Real> = Vec::new();
    while values.len() < count
        invariant
            values@.len() <= count,
            texts == row_view(*fields),
            values@.len() < texts.len(),
            forall|k: int| 0 <= k <= values@.len() ==> !bad_column(texts, k),
            literals(values@) =~= texts.subrange(1, values@.len() as int + 1),
        decreases count - values@.len(),
    {
        let column: usize = values.len() + 1;
        proof {
            lemma_first_bad_column_from(texts, column as int, count + 1);
        }
        if column >= fields.len() {
            return Err(ReadError::Malformed(Flaw::Column { row, column }));
        }
        match Real::from_literal(fields[column].as_str()) {
            Some(value) => {
                assert(texts[column as int] == value@);
                let ghost before = values@;
                values.push(value);
                assert(literals(values@) =~= literals(before).push(value@));
            },
            None => {
                return Err(ReadError::Malformed(Flaw::Column { row, column }));
            },
        }
    }
    proof {
        lemma_first_bad_column_from(texts, count + 1, count + 1);
    }
    Ok((time, values))
}

/// The rows of a log, read one at a time.
pub struct RowReader<'a> {
    reader: csv::StringRecordsIntoIter<&'a [u8]>,
    row: u64,
}

impl<'a> RowReader<'a> {
    /// The rows that have not been read yet; `None` stands for a row that cannot be read.
    pub closed spec fn ahead(&self) -> Seq<Option<Seq<Seq<char>>>> {
        rows_ahead(self.reader)
    }

    /// The number of the row that is read next, counted from zero behind the header.
    pub closed spec fn row(&self) -> u64 {
        self.row
    }

    /// A reader at the first row behind the header of `log`.
    pub fn open(log: &'a [u8]) -> (r: Self)
        ensures
            r.ahead() == log_rows(log@),
            r.row() == 0,
    {
        RowReader { reader: open_log(log), row: 0 }
    }

    /// The number of the row that is read next.
    pub fn position(&self) -> (row: u64)
        ensures
            row == self.row(),
    {
        self.row
    }

    /// Reads the next row. A row that cannot be read is reported and passed over; at the
    /// end of the log the result is `None` and nothing changes.
    pub fn next(&mut self) -> (r: Option<Result<Vec<String>, ReadError>>)
        ensures
            old(self).ahead().len() == 0 ==> r is None && final(self).ahead() == old(self).ahead()
                && final(self).row() == old(self).row(),
            old(self).ahead().len() > 0 ==> r is Some && final(self).ahead() == old(
                self,
            ).ahead().drop_first() && final(self).row() == following(old(self).row()),
            r matches Some(Ok(fields)) ==> old(self).ahead()[0] == Some(row_view(fields)),
            r matches Some(Err(e)) ==> old(self).ahead()[0] is None && e == ReadError::Io(
                Source::Row(old(self).row()),
            ),
    {
        let row = self.row;
        match next_row(&mut self.reader) {
            None => None,
            Some(outcome) => {
                if self.row < u64::MAX {
                    self.row = self.row + 1;
                }
                match outcome {
                    Ok(fields) => Some(Ok(fields)),
                    Err(_) => Some(Err(ReadError::Io(Source::Row(row)))),
                }
            },
        }
    }
}

/// What the rows of one kind of sensor mean.
pub trait RowDecoder {
    /// The record that a row gives.
    type Record;

    /// What a record holds, as plain values.
    type Model;

    /// What `record` holds.
    spec fn model(record: Self::Record) -> Self::Model;

    /// What the row with the number `row` and the fields `fields` gives.
    spec fn decoded(&self, fields: Seq<Seq<char>>, row: u64) -> Result<Self::Model, ReadError>;

    /// Turns a row into a record.
    fn decode(&self, fields: &Vec<String>, row: u64) -> (r: Result<Self::Record, ReadError>)
        ensures
            match r {
                Ok(record) => self.decoded(row_view(*fields), row) == Ok::<Self::Model, ReadError>(
                    Self::model(record),
                ),
                Err(e) => self.decoded(row_view(*fields), row) == Err::<Self::Model, ReadError>(e),
            },
    ;
}

/// What the result of decoding a row holds.
pub open spec fn model_of<D: RowDecoder + ?Sized>(r: Result<D::Record, ReadError>) -> Result<
    D::Model,
    ReadError,
> {
    match r {
        Ok(record) => Ok(D::model(record)),
        Err(e) => Err(e),
    }
}

/// What a decoder makes of the row with the number `row`, which the reader hands out as
/// `outcome`.
pub open spec fn item_of<D: RowDecoder>(
    decoder: D,
    outcome: Option<Seq<Seq<char>>>,
    row: u64,
) -> Result<D::Model, ReadError> {
    match outcome {
        Some(fields) => decoder.decoded(fields, row),
        None => Err(ReadError::Io(Source::Row(row))),
    }
}

/// The records of a log: a lazy sequence that reads and decodes one row for each call of
/// [`Records::next`]. It runs forward only; to start again, open the log again.
pub struct Records<'a, D> {
    rows: RowReader<'a>,
    decoder: D,
}

impl<'a, D: RowDecoder> Records<'a, D> {
    /// The rows that have not been read yet; `None` stands for a row that cannot be read.
    pub closed spec fn ahead(&self) -> Seq<Option<Seq<Seq<char>>>> {
        self.rows.ahead()
    }

    /// The number of the row that is read next, counted from zero behind the header.
    pub closed spec fn row(&self) -> u64 {
        self.rows.row()
    }

    /// The decoder of the rows.
    pub closed spec fn decoder(&self) -> D {
        self.decoder
    }

    /// The records of `log`, from its first row behind the header.
    pub fn open(log: &'a [u8], decoder: D) -> (r: Self)
        ensures
            r.ahead() == log_rows(log@),
            r.row() == 0,
            r.decoder() == decoder,
    {
        Records { rows: RowReader::open(log), decoder }
    }

    /// Reads the next row and decodes it. A failure is that of its row alone: the call
    /// after it goes on with the row behind. At the end of the log the result is `None`.
    pub fn next(&mut self) -> (r: Option<Result<D::Record, ReadError>>)
        ensures
            final(self).decoder() == old(self).decoder(),
            old(self).ahead().len() == 0 ==> r is None && final(self).ahead() == old(self).ahead()
                && final(self).row() == old(self).row(),
            old(self).ahead().len() > 0 ==> r is Some && final(self).ahead() == old(
                self,
            ).ahead().drop_first() && final(self).row() == following(old(self).row()),
            r is Some ==> model_of::<D>(r->Some_0) == item_of(
                old(self).decoder(),
                old(self).ahead()[0],
                old(self).row(),
            ),
    {
        let row = self.rows.position();
        match self.rows.next() {
            None => None,
            Some(Ok(fields)) => Some(self.decoder.decode(&fields, row)),
            Some(Err(e)) => Some(Err(e)),
        }
    }

    /// `all` is what the rows that are left give: one result for each row, in the order of
    /// the rows, each as the decoder reads its row.
    pub open spec fn yields(&self, all: Seq<Result<D::Record, ReadError>>) -> bool {
        &&& all.len() == self.ahead().len()
        &&& forall|i: int|
            0 <= i < all.len() ==> model_of::<D>(#[trigger] all[i]) == item_of(
                self.decoder(),
                self.ahead()[i],
                advanced(self.row(), i as nat),
            )
    }

    /// Reads and decodes all the rows that are left, in their order.
    pub fn collect(self) -> (all: Vec<Result<D::Record, ReadError>>)
        ensures
            self.yields(all@),
    {
        let ghost ahead = self.ahead();
        let ghost start = self.row();
        let ghost decoder = self.decoder();
        let mut records = self;
        let mut all: Vec<Result<D::Record, ReadError>> = Vec::new();
        loop
            invariant
                all@.len() <= ahead.len(),
                records.ahead() == ahead.skip(all@.len() as int),
                records.row() == advanced(start, all@.len() as nat),
                records.decoder() == decoder,
                forall|i: int|
                    0 <= i < all@.len() ==> model_of::<D>(#[trigger] all@[i]) == item_of(
                        decoder,
                        ahead[i],
                        advanced(start, i as nat),
                    ),
            ensures
                all@.len() == ahead.len(),
                forall|i: int|
                    0 <= i < all@.len() ==> model_of::<D>(#[trigger] all@[i]) == item_of(
                        decoder,
                        ahead[i],
                        advanced(start, i as nat),
                    ),
            decreases ahead.len() - all@.len(),
        {
            let ghost done = all@.len() as int;
            match records.next() {
                None => {
                    break ;
                },
                Some(item) => {
                    assert(ahead.skip(done)[0] == ahead[done]);
                    assert(ahead.skip(done).drop_first() =~= ahead.skip(done + 1));
                    all.push(item);
                },
            }
        }
        all
    }
}

/// Over the same rows, from the same row number on and with decoders that read every row
/// alike, two sequences of records hold the same: as many results, and at each place the
/// same record or the same failure.
pub proof fn law_same_rows_same_records<D: RowDecoder>(
    first: Records<'_, D>,
    second: Records<'_, D>,
    xs: Seq<Result<D::Record, ReadError>>,
    ys: Seq<Result<D::Record, ReadError>>,
)
    requires
        first.ahead() == second.ahead(),
        first.row() == second.row(),
        forall|fields: Seq<Seq<char>>, row: u64|
            first.decoder().decoded(fields, row) == second.decoder().decoded(fields, row),
        first.yields(xs),
        second.yields(ys),
    ensures
        xs.len() == ys.len(),
        forall|i: int| 0 <= i < xs.len() ==> model_of::<D>(xs[i]) == model_of::<D>(ys[i]),
{
    assert forall|i: int| 0 <= i < xs.len() implies model_of::<D>(xs[i]) == model_of::<D>(
        ys[i],
    ) by {
        let row = advanced(first.row(), i as nat);
        assert(model_of::<D>(xs[i]) == item_of(first.decoder(), first.ahead()[i], row));
        assert(model_of::<D>(ys[i]) == item_of(second.decoder(), second.ahead()[i], row));
    }
}

/// Taking the records one by one gives what taking them all gives: the first call of
/// `next` hands out the first of them, and the rest are those of the reader behind it.
pub proof fn law_next_is_first_of_all<D: RowDecoder>(
    before: Records<'_, D>,
    after: Records<'_, D>,
    item: Result<D::Record, ReadError>,
    rest: Seq<Result<D::Record, ReadError>>,
)
    requires
        before.ahead().len() > 0,
        after.ahead() == before.ahead().drop_first(),
        after.row() == following(before.row()),
        after.decoder() == before.decoder(),
        model_of::<D>(item) == item_of(before.decoder(), before.ahead()[0], before.row()),
        after.yields(rest),
    ensures
        before.yields(seq![item] + rest),
{
    let all = seq![item] + rest;
    assert forall|i: int| 0 <= i < all.len() implies model_of::<D>(#[trigger] all[i]) == item_of(
        before.decoder(),
        before.ahead()[i],
        advanced(before.row(), i as nat),
    ) by {
        if i > 0 {
            assert(all[i] == rest[i - 1]);
            assert(before.ahead()[i] == after.ahead()[i - 1]);
            assert(advanced(before.row(), i as nat) == advanced(after.row(), (i - 1) as nat));
        }
    }
}

} // verus!
