//! Reading JSON files with metrics: how many files were read, and how many bytes they hold.

use vstd::prelude::*;

use crate::actions::FileMeta;
use crate::engine::JsonHandler;
use crate::error::DeltaResult;
use crate::plans::nodes::{PredicateRef, SchemaRef};

verus! {

/// Wraps an iterator over files whose counts are known up front, so that they are reported
/// exactly once: when the iterator is exhausted or dropped.
#[derive(Debug)]
pub struct PrecountedMetricsIterator<I> {
    /// The wrapped iterator.
    pub inner: I,
    pub num_files: u64,
    pub bytes_read: u64,
    /// Have the counts been reported?
    pub emitted: bool,
}

/// What is to be reported: the number of files and of bytes.
pub type ReadCounts = (u64, u64);

impl<I> PrecountedMetricsIterator<I> {
    /// The counts that are reported.
    pub open spec fn counts(self) -> ReadCounts {
        (self.num_files, self.bytes_read)
    }

    /// Wraps `inner`, whose counts have not been reported.
    pub fn new(inner: I, num_files: u64, bytes_read: u64) -> (r: Self)
        ensures
            r.inner == inner,
            r.counts() == (num_files, bytes_read),
            !r.emitted,
    {
        PrecountedMetricsIterator { inner, num_files, bytes_read, emitted: false }
    }

    /// The counts, if they have not been reported.
    fn emit_once(&mut self) -> (r: Option<ReadCounts>)
        ensures
            final(self).emitted,
            final(self).inner == old(self).inner,
            final(self).counts() == old(self).counts(),
            r == (if old(self).emitted {
                None
            } else {
                Some(old(self).counts())
            }),
    {
        if self.emitted {
            None
        } else {
            self.emitted = true;
            Some((self.num_files, self.bytes_read))
        }
    }

    /// Called after each step of the wrapped iterator. At its end, the counts are to be reported
    /// if they have not been.
    pub fn after_next(&mut self, exhausted: bool) -> (r: Option<ReadCounts>)
        ensures
            final(self).inner == old(self).inner,
            final(self).counts() == old(self).counts(),
            final(self).emitted == emitted_after(old(self).emitted, exhausted),
            r == (if step_reports(old(self).emitted, exhausted) {
                Some(old(self).counts())
            } else {
                None
            }),
    {
        if exhausted {
            self.emit_once()
        } else {
            None
        }
    }

    /// Called when the wrapped iterator is dropped. The counts are to be reported if they have not
    /// been.
    pub fn on_drop(&mut self) -> (r: Option<ReadCounts>)
        ensures
            final(self).inner == old(self).inner,
            final(self).counts() == old(self).counts(),
            final(self).emitted,
            r == (if drop_reports(old(self).emitted) {
                Some(old(self).counts())
            } else {
                None
            }),
    {
        self.emit_once()
    }
}

/// Are the counts reported after a step of the iterator, given whether they were before it?
pub open spec fn step_reports(emitted: bool, exhausted: bool) -> bool {
    exhausted && !emitted
}

/// Have the counts been reported after a step of the iterator, given whether they were before it?
pub open spec fn emitted_after(emitted: bool, exhausted: bool) -> bool {
    emitted || exhausted
}

/// Are the counts reported when the iterator is dropped, given whether they were before?
pub open spec fn drop_reports(emitted: bool) -> bool {
    !emitted
}

/// How often the counts are reported over the steps of an iterator, of which each says whether it
/// was the end, and the drop after them.
pub open spec fn reports(emitted: bool, steps: Seq<bool>) -> nat
    decreases steps.len(),
{
    if steps.len() == 0 {
        if drop_reports(emitted) {
            1
        } else {
            0
        }
    } else {
        (if step_reports(emitted, steps[0]) {
            1nat
        } else {
            0nat
        }) + reports(emitted_after(emitted, steps[0]), steps.drop_first())
    }
}

/// Whatever the steps of the iterator, the counts are reported exactly once.
pub proof fn law_counts_are_reported_exactly_once(steps: Seq<bool>)
    ensures
        reports(false, steps) == 1,
    decreases steps.len(),
{
    if steps.len() > 0 {
        if steps[0] {
            lemma_no_report_after_the_first(steps.drop_first());
        } else {
            law_counts_are_reported_exactly_once(steps.drop_first());
        }
    }
}

proof fn lemma_no_report_after_the_first(steps: Seq<bool>)
    ensures
        reports(true, steps) == 0,
    decreases steps.len(),
{
    if steps.len() > 0 {
        lemma_no_report_after_the_first(steps.drop_first());
    }
}

/// Wraps a [`JsonHandler`] so that each read is counted. Parsing and writing pass through. It is no
/// [`JsonHandler`] itself, so it cannot be wrapped again and no read is counted twice.
#[derive(Debug)]
pub struct MeteredJsonHandler<H: JsonHandler> {
    inner: H,
}

/// The sum of the sizes of files.
pub open spec fn total_size(files: Seq<FileMeta>) -> nat
    decreases files.len(),
{
    if files.len() == 0 {
        0
    } else {
        total_size(files.drop_last()) + files.last().size as nat
    }
}

proof fn lemma_total_size_prefix(files: Seq<FileMeta>, n: int)
    requires
        0 <= n <= files.len(),
    ensures
        total_size(files.take(n)) <= total_size(files),
    decreases files.len(),
{
    if n == files.len() {
        assert(files.take(n) =~= files);
    } else {
        assert(files.drop_last().take(n) =~= files.take(n));
        lemma_total_size_prefix(files.drop_last(), n);
    }
}

/// The sum of the sizes of files.
pub fn sum_sizes(files: &Vec<FileMeta>) -> (r: u64)
    requires
        total_size(files@) <= u64::MAX,
    ensures
        r == total_size(files@),
{
    let mut sum: u64 = 0;
    let mut i: usize = 0;
    while i < files.len()
        invariant
            i <= files@.len(),
            total_size(files@) <= u64::MAX,
            sum == total_size(files@.take(i as int)),
        decreases files@.len() - i,
    {
        proof {
            lemma_total_size_prefix(files@, i + 1);
            assert(files@.take(i + 1).drop_last() =~= files@.take(i as int));
        }
        sum += files[i].size;
        i += 1;
    }
    assert(files@.take(i as int) =~= files@);
    sum
}

impl<H: JsonHandler> MeteredJsonHandler<H> {
    /// The wrapped handler.
    pub closed spec fn handler(self) -> H {
        self.inner
    }

    /// Wraps `inner`.
    pub fn new(inner: H) -> (r: Self)
        ensures
            r.handler() == inner,
    {
        MeteredJsonHandler { inner }
    }

    /// Parses a batch of JSON strings, with the wrapped handler.
    pub fn parse_json(&self, json_strings: H::Data, output_schema: SchemaRef) -> (r: DeltaResult<
        H::Data,
    >)
        ensures
            call_ensures(H::parse_json, (&self.handler(), json_strings, output_schema), r),
    {
        self.inner.parse_json(json_strings, output_schema)
    }

    /// Reads JSON files with the wrapped handler, and counts the files and their bytes. The counts
    /// are to be reported when the result is exhausted or dropped.
    pub fn read_json_files(
        &self,
        files: &Vec<FileMeta>,
        physical_schema: SchemaRef,
        predicate: Option<PredicateRef>,
    ) -> (r: DeltaResult<PrecountedMetricsIterator<Vec<DeltaResult<H::Data>>>>)
        requires
            total_size(files@) <= u64::MAX,
        ensures
            match r {
                Ok(iter) => call_ensures(
                    H::read_json_files,
                    (&self.handler(), files, physical_schema, predicate),
                    Ok(iter.inner),
                ) && iter.counts() == (files@.len() as u64, total_size(files@) as u64)
                    && !iter.emitted,
                Err(e) => call_ensures(
                    H::read_json_files,
                    (&self.handler(), files, physical_schema, predicate),
                    Err(e),
                ),
            },
    {
        let num_files = files.len() as u64;
        let bytes_read = sum_sizes(files);
        match self.inner.read_json_files(files, physical_schema, predicate) {
            Ok(inner) => Ok(PrecountedMetricsIterator::new(inner, num_files, bytes_read)),
            Err(e) => Err(e),
        }
    }

    /// Writes data to a JSON file, with the wrapped handler.
    pub fn write_json_file(
        &self,
        path: &str,
        data: Vec<DeltaResult<H::Data>>,
        overwrite: bool,
    ) -> (r: DeltaResult<()>)
        ensures
            call_ensures(H::write_json_file, (&self.handler(), path, data, overwrite), r),
    {
        self.inner.write_json_file(path, data, overwrite)
    }
}

} // verus!
