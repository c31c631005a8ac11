//! What a metered reader counts, and when it says so.

use vstd::prelude::*;

use crate::actions::FileMeta;
use crate::engine::JsonHandler;
use crate::error::DeltaResult;
use crate::metrics::read::{
    sum_sizes, total_size, MeteredJsonHandler, PrecountedMetricsIterator, ReadCounts,
};
use crate::plans::nodes::{PredicateRef, SchemaRef};

verus! {

proof fn lemma_total_size_adds(a: Seq<FileMeta>, b: Seq<FileMeta>)
    ensures
        total_size(a + b) == total_size(a) + total_size(b),
    decreases b.len(),
{
    if b.len() == 0 {
        assert(a + b =~= a);
    } else {
        assert((a + b).drop_last() =~= a + b.drop_last());
        lemma_total_size_adds(a, b.drop_last());
    }
}

/// The size of no files is 0, that of one file is its size, and that of two lists of files together is the sum of theirs.
pub proof fn law_sizes_add_up(
    a: Vec<FileMeta>,
    b: Vec<FileMeta>,
    all: Vec<FileMeta>,
    size_a: u64,
    size_b: u64,
    size: u64,
)
    requires
        all@ == a@ + b@,
        call_ensures(sum_sizes, (&a,), size_a),
        call_ensures(sum_sizes, (&b,), size_b),
        call_ensures(sum_sizes, (&all,), size),
    ensures
        size == size_a + size_b,
        a@.len() == 0 ==> size_a == 0,
        a@.len() == 1 ==> size_a == a@[0].size,
{
    lemma_total_size_adds(a@, b@);
    if a@.len() == 1 {
        assert(a@.drop_last() =~= Seq::empty());
        assert(total_size(a@.drop_last()) == 0);
        assert(a@.last() == a@[0]);
    }
}

/// A reader counts each file that it is asked for once, and all of their bytes, whatever comes out of them. It hands on what it got.
pub proof fn law_reader_counts_files_and_bytes<H: JsonHandler>(
    handler: H,
    reader: MeteredJsonHandler<H>,
    files: Vec<FileMeta>,
    schema: SchemaRef,
    predicate: Option<PredicateRef>,
    bytes: u64,
    r: DeltaResult<PrecountedMetricsIterator<Vec<DeltaResult<H::Data>>>>,
)
    requires
        call_ensures(MeteredJsonHandler::<H>::new, (handler,), reader),
        call_ensures(sum_sizes, (&files,), bytes),
        call_ensures(
            MeteredJsonHandler::<H>::read_json_files,
            (&reader, &files, schema, predicate),
            r,
        ),
    ensures
        match r {
            Ok(iter) => {
                &&& iter.num_files == files@.len()
                &&& iter.bytes_read == bytes
                &&& !iter.emitted
                &&& call_ensures(
                    H::read_json_files,
                    (&handler, &files, schema, predicate),
                    Ok(iter.inner),
                )
            },
            Err(e) => call_ensures(
                H::read_json_files,
                (&handler, &files, schema, predicate),
                Err(e),
            ),
        },
{
    assert(files.len() <= usize::MAX);
}

/// Parsing and writing are the work of the handler inside alone.
pub proof fn law_other_work_is_handed_on<H: JsonHandler>(
    handler: H,
    reader: MeteredJsonHandler<H>,
    json: H::Data,
    schema: SchemaRef,
    parsed: DeltaResult<H::Data>,
    path: &str,
    data: Vec<DeltaResult<H::Data>>,
    overwrite: bool,
    written: DeltaResult<()>,
)
    requires
        call_ensures(MeteredJsonHandler::<H>::new, (handler,), reader),
        call_ensures(MeteredJsonHandler::<H>::parse_json, (&reader, json, schema), parsed),
        call_ensures(
            MeteredJsonHandler::<H>::write_json_file,
            (&reader, path, data, overwrite),
            written,
        ),
    ensures
        call_ensures(H::parse_json, (&handler, json, schema), parsed),
        call_ensures(H::write_json_file, (&handler, path, data, overwrite), written),
{
}

/// A new iterator has not said anything of its counts.
pub proof fn law_new_iterator_has_its_counts<I>(
    inner: I,
    num_files: u64,
    bytes_read: u64,
    r: PrecountedMetricsIterator<I>,
)
    requires
        call_ensures(PrecountedMetricsIterator::<I>::new, (inner, num_files, bytes_read), r),
    ensures
        r.inner == inner,
        r.num_files == num_files,
        r.bytes_read == bytes_read,
        !r.emitted,
{
}

/// A step says the counts if it is the first that finds the end. Whoever has said them stays silent.
pub proof fn law_step_reports_at_the_first_end<I>(
    iter: &mut PrecountedMetricsIterator<I>,
    exhausted: bool,
    r: Option<ReadCounts>,
)
    requires
        call_ensures(PrecountedMetricsIterator::<I>::after_next, (iter, exhausted), r),
    ensures
        r is Some <==> exhausted && !old(iter).emitted,
        r is Some ==> (r->Some_0).0 == old(iter).num_files && (r->Some_0).1 == old(iter).bytes_read,
        final(iter).emitted <==> old(iter).emitted || r is Some,
        final(iter).inner == old(iter).inner,
        final(iter).num_files == old(iter).num_files,
        final(iter).bytes_read == old(iter).bytes_read,
{
}

/// An iterator that is dropped says the counts if it has not done so before.
pub proof fn law_drop_reports_what_was_not_said<I>(
    iter: &mut PrecountedMetricsIterator<I>,
    r: Option<ReadCounts>,
)
    requires
        call_ensures(PrecountedMetricsIterator::<I>::on_drop, (iter,), r),
    ensures
        r is Some <==> !old(iter).emitted,
        r is Some ==> (r->Some_0).0 == old(iter).num_files && (r->Some_0).1 == old(iter).bytes_read,
        final(iter).emitted,
        final(iter).inner == old(iter).inner,
        final(iter).num_files == old(iter).num_files,
        final(iter).bytes_read == old(iter).bytes_read,
{
}

} // verus!
