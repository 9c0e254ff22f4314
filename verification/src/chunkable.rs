use vstd::prelude::*;

verus! {

/// What the chunking decision reads of a query's arguments.
#[derive(Debug, Clone, Copy)]
pub struct QueryArguments {
    /// The number of orderings the query asks for.
    pub order_by_count: usize,
    /// Whether the query paginates from a cursor.
    pub has_cursor: bool,
    /// Whether the query's filters cannot be split over several queries.
    pub has_unbatchable_filters: bool,
    /// Whether the query's ordering cannot be split over several queries.
    pub has_unbatchable_ordering: bool,
}

/// What the chunking decision reads of a filter: whether it can be split into
/// batches.
#[derive(Debug, Clone, Copy)]
pub struct Filter {
    can_batch: bool,
}

impl Filter {
    pub fn new(can_batch: bool) -> (r: Self)
        ensures
            r.spec_can_batch() == can_batch,
    {
        Filter { can_batch }
    }

    pub closed spec fn spec_can_batch(&self) -> bool {
        self.can_batch
    }

    /// Whether the filter can be split into batches.
    #[verifier::when_used_as_spec(spec_can_batch)]
    pub fn can_batch(&self) -> (r: bool)
        ensures
            r == self.spec_can_batch(),
    {
        self.can_batch
    }
}

/// Indicates whether the parameters of a query can be chunked into smaller
/// queries.
#[derive(Debug, Clone, Copy, PartialEq, Eq, Structural)]
pub enum Chunkable {
    Yes,
    No,
}

/// Whether a query with these arguments can be chunked: only when it has no
/// ordering, no cursor, and neither filters nor ordering that forbid batching.
pub open spec fn arguments_chunkable(args: QueryArguments) -> Chunkable {
    if args.order_by_count != 0 || args.has_cursor || args.has_unbatchable_filters
        || args.has_unbatchable_ordering {
        Chunkable::No
    } else {
        Chunkable::Yes
    }
}

impl From<Chunkable> for bool {
    fn from(chunkable: Chunkable) -> (r: bool) {
        matches!(chunkable, Chunkable::Yes)
    }
}

impl vstd::std_specs::convert::FromSpecImpl<Chunkable> for bool {
    open spec fn obeys_from_spec() -> bool {
        true
    }

    open spec fn from_spec(chunkable: Chunkable) -> bool {
        chunkable is Yes
    }
}

impl<'a> From<&'a QueryArguments> for Chunkable {
    fn from(args: &'a QueryArguments) -> (r: Chunkable) {
        if args.order_by_count != 0 || args.has_cursor || args.has_unbatchable_filters
            || args.has_unbatchable_ordering {
            Chunkable::No
        } else {
            Chunkable::Yes
        }
    }
}

impl<'a> vstd::std_specs::convert::FromSpecImpl<&'a QueryArguments> for Chunkable {
    open spec fn obeys_from_spec() -> bool {
        true
    }

    open spec fn from_spec(args: &'a QueryArguments) -> Chunkable {
        arguments_chunkable(*args)
    }
}

impl<'a> From<&'a Filter> for Chunkable {
    fn from(filter: &'a Filter) -> (r: Chunkable) {
        if filter.can_batch() {
            Chunkable::Yes
        } else {
            Chunkable::No
        }
    }
}

impl<'a> vstd::std_specs::convert::FromSpecImpl<&'a Filter> for Chunkable {
    open spec fn obeys_from_spec() -> bool {
        true
    }

    open spec fn from_spec(filter: &'a Filter) -> Chunkable {
        if filter.spec_can_batch() {
            Chunkable::Yes
        } else {
            Chunkable::No
        }
    }
}

/// Turning a filter's chunking decision into a flag gives whether the filter
/// can be batched.
pub proof fn lemma_filter_chunkable_flag(filter: Filter)
    ensures
        <bool as vstd::std_specs::convert::FromSpec<Chunkable>>::from_spec(
            <Chunkable as vstd::std_specs::convert::FromSpec<&Filter>>::from_spec(&filter),
        ) == filter.spec_can_batch(),
{
}

/// A query is chunked exactly when it has no ordering, no cursor, no filter that
/// forbids batching and no ordering that forbids batching; as a flag, a chunking
/// decision is true exactly when it is `Yes`.
pub proof fn lemma_arguments_chunkable_exactly(args: QueryArguments, c: Chunkable)
    ensures
        <Chunkable as vstd::std_specs::convert::FromSpec<&QueryArguments>>::from_spec(&args)
            == Chunkable::Yes <==> (args.order_by_count == 0 && !args.has_cursor
            && !args.has_unbatchable_filters && !args.has_unbatchable_ordering),
        <bool as vstd::std_specs::convert::FromSpec<Chunkable>>::from_spec(c) <==> c == Chunkable::Yes,
{
}

/// A query that has an ordering or a cursor is never chunked.
pub proof fn lemma_ordered_or_cursor_not_chunkable(args: QueryArguments)
    requires
        args.order_by_count != 0 || args.has_cursor,
    ensures
        arguments_chunkable(args) == Chunkable::No,
{
}

} // verus!
