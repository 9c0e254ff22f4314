use vstd::prelude::*;

use crate::arg_type::{ArgType, DynamicArgType};
use crate::chunkable::Chunkable;
use crate::column_type::ColumnType;
use crate::decimal::{decimal_text, write_decimal};

verus! {

/// A piece of a query template.
#[derive(Debug)]
pub enum Fragment {
    /// Literal query text.
    StringChunk { chunk: String },
    /// One parameter.
    Parameter,
    /// A parameter that expands to a tuple of values.
    ParameterTuple,
    /// A parameter that expands to a list of tuples of values, written with the
    /// given affixes and separators.
    ParameterTupleList {
        item_prefix: String,
        item_separator: String,
        item_suffix: String,
        group_separator: String,
    },
}

/// How a placeholder for a parameter is written: a prefix, followed by the
/// parameter's number where the format numbers its placeholders.
#[derive(Debug, Clone, Copy)]
pub struct PlaceholderFormat {
    pub prefix: &'static str,
    pub has_numbering: bool,
}

/// The text of placeholder number `n` in the given format.
pub open spec fn placeholder_text(prefix: Seq<char>, has_numbering: bool, n: nat) -> Seq<char> {
    if has_numbering {
        prefix + decimal_text(n)
    } else {
        prefix
    }
}

impl PlaceholderFormat {
    /// Append the placeholder numbered `*number` to `out`; where the format
    /// numbers its placeholders, move `*number` on to the next number.
    pub fn write(&self, out: &mut String, number: &mut usize)
        requires
            self.has_numbering ==> *old(number) < usize::MAX,
        ensures
            final(out)@ == old(out)@ + placeholder_text(
                self.prefix@,
                self.has_numbering,
                *old(number) as nat,
            ),
            final(out)@ == old(out)@ + self.prefix@ + if self.has_numbering {
                decimal_text(*old(number) as nat)
            } else {
                Seq::<char>::empty()
            },
            *final(number) == if self.has_numbering {
                *old(number) + 1
            } else {
                *old(number) as int
            },
    {
        out.append(self.prefix);
        if self.has_numbering {
            write_decimal(out, *number);
            *number = *number + 1;
        }
        proof {
            assert(final(out)@ =~= old(out)@ + placeholder_text(
                self.prefix@,
                self.has_numbering,
                *old(number) as nat,
            ));
        }
    }
}

/// The placeholder `$n` with which queries are shown.
pub open spec fn dollar_placeholder(n: nat) -> Seq<char> {
    seq!['$'] + decimal_text(n)
}

/// The number of parameters that a fragment stands for.
pub open spec fn fragment_parameter_count(f: Fragment) -> nat {
    match f {
        Fragment::StringChunk { .. } => 0,
        _ => 1,
    }
}

/// The number of parameters in a sequence of fragments.
pub open spec fn parameter_count(fragments: Seq<Fragment>) -> nat
    decreases fragments.len(),
{
    if fragments.len() == 0 {
        0
    } else {
        parameter_count(fragments.drop_last()) + fragment_parameter_count(fragments.last())
    }
}

/// How a fragment is shown when its parameter, if any, has number `n`.
pub open spec fn fragment_text(f: Fragment, n: nat) -> Seq<char> {
    match f {
        Fragment::StringChunk { chunk } => chunk@,
        Fragment::Parameter => dollar_placeholder(n),
        Fragment::ParameterTuple => seq!['['] + dollar_placeholder(n) + seq![']'],
        Fragment::ParameterTupleList { .. } => seq!['[', '('] + dollar_placeholder(n) + seq![')', ']'],
    }
}

/// How a sequence of fragments is shown when its parameters are numbered from
/// `first` on, in order.
pub open spec fn fragments_text(fragments: Seq<Fragment>, first: nat) -> Seq<char>
    decreases fragments.len(),
{
    if fragments.len() == 0 {
        Seq::empty()
    } else {
        let init = fragments.drop_last();
        fragments_text(init, first) + fragment_text(
            fragments.last(),
            first + parameter_count(init),
        )
    }
}

/// A query that a builder emits: either finished SQL, or a template whose
/// parameters are expanded later.
///
/// `V` is the type of the argument values.
#[derive(Debug)]
#[allow(inconsistent_fields)]
pub enum DbQuery<V> {
    RawSql {
        sql: String,
        args: Vec<V>,
        arg_types: Vec<ArgType>,
        column_types: Option<Vec<Option<ColumnType>>>,
    },
    TemplateSql {
        fragments: Vec<Fragment>,
        args: Vec<V>,
        arg_types: Vec<DynamicArgType>,
        placeholder_format: PlaceholderFormat,
        chunkable: Chunkable,
        column_types: Option<Vec<Option<ColumnType>>>,
    },
}

impl<V> DbQuery<V> {
    /// The argument values of the query.
    pub open spec fn spec_params(&self) -> Seq<V> {
        match self {
            DbQuery::RawSql { args, .. } => args@,
            DbQuery::TemplateSql { args, .. } => args@,
        }
    }

    /// How the query is shown: the SQL itself, or the template with its
    /// parameters written `$1`, `$2`, ... in order.
    pub open spec fn shown_text(&self) -> Seq<char> {
        match self {
            DbQuery::RawSql { sql, .. } => sql@,
            DbQuery::TemplateSql { fragments, .. } => fragments_text(fragments@, 1),
        }
    }

    /// The argument values of the query.
    pub fn params(&self) -> (r: &[V])
        ensures
            r@ == self.spec_params(),
            match self {
                DbQuery::RawSql { args, .. } => r@ == args@,
                DbQuery::TemplateSql { args, .. } => r@ == args@,
            },
    {
        match self {
            DbQuery::RawSql { args: params, .. } => params.as_slice(),
            DbQuery::TemplateSql { args: params, .. } => params.as_slice(),
        }
    }

    /// Show the query, for debugging, unit tests and command-line output. The
    /// placeholder syntax does not attempt to match any actual SQL flavour.
    pub fn to_string(&self) -> (r: String)
        requires
            self matches DbQuery::TemplateSql { fragments, .. } ==> fragments.len() < usize::MAX,
        ensures
            r@ == self.shown_text(),
    {
        match self {
            DbQuery::RawSql { sql, .. } => {
                let mut out = String::new();
                out.append(sql.as_str());
                proof {
                    assert(out@ =~= sql@);
                }
                out
            },
            DbQuery::TemplateSql { fragments, .. } => {
                let placeholder_format = PlaceholderFormat { prefix: "$", has_numbering: true };
                proof {
                    reveal_strlit("$");
                    assert("$"@ =~= seq!['$']);
                }
                let mut out = String::new();
                let mut number: usize = 1;
                let n = fragments.len();
                for i in 0..n
                    invariant
                        n == fragments.len(),
                        n < usize::MAX,
                        placeholder_format.prefix@ == seq!['$'],
                        placeholder_format.has_numbering,
                        number == 1 + parameter_count(fragments@.take(i as int)),
                        parameter_count(fragments@.take(i as int)) <= i,
                        out@ == fragments_text(fragments@.take(i as int), 1),
                {
                    let ghost before = out@;
                    let ghost prefix = fragments@.take(i as int);
                    assert(fragments@.take(i + 1).drop_last() =~= prefix);
                    match &fragments[i] {
                        Fragment::StringChunk { chunk } => {
                            out.append(chunk.as_str());
                            assert(out@ =~= before + chunk@);
                        },
                        Fragment::Parameter => {
                            placeholder_format.write(&mut out, &mut number);
                            assert(out@ =~= before + dollar_placeholder((1 + parameter_count(prefix)) as nat));
                        },
                        Fragment::ParameterTuple => {
                            proof {
                                reveal_strlit("[");
                                reveal_strlit("]");
                                assert("["@ =~= seq!['[']);
                                assert("]"@ =~= seq![']']);
                            }
                            out.append("[");
                            placeholder_format.write(&mut out, &mut number);
                            out.append("]");
                            assert(out@ =~= before + (seq!['['] + dollar_placeholder((1 + parameter_count(prefix)) as nat) + seq![']']));
                        },
                        Fragment::ParameterTupleList { .. } => {
                            proof {
                                reveal_strlit("[(");
                                reveal_strlit(")]");
                                assert("[("@ =~= seq!['[', '(']);
                                assert(")]"@ =~= seq![')', ']']);
                            }
                            out.append("[(");
                            placeholder_format.write(&mut out, &mut number);
                            out.append(")]");
                            assert(out@ =~= before + (seq!['[', '('] + dollar_placeholder((1 + parameter_count(prefix)) as nat) + seq![')', ']']));
                        },
                    }
                    assert(out@ =~= before + fragment_text(fragments@[i as int], 1 + parameter_count(prefix)));
                }
                assert(fragments@.take(n as int) =~= fragments@);
                out
            },
        }
    }
}

/// Parameters are numbered across concatenation: the fragments `a + b` show as
/// `a` followed by `b` whose numbering continues after the parameters of `a`.
pub proof fn lemma_fragments_text_concat(a: Seq<Fragment>, b: Seq<Fragment>, first: nat)
    ensures
        fragments_text(a + b, first) == fragments_text(a, first) + fragments_text(
            b,
            first + parameter_count(a),
        ),
        parameter_count(a + b) == parameter_count(a) + parameter_count(b),
    decreases b.len(),
{
    if b.len() == 0 {
        assert(a + b =~= a);
        assert(fragments_text(a, first) + fragments_text(b, first + parameter_count(a)) =~= fragments_text(a, first));
    } else {
        let b0 = b.drop_last();
        lemma_fragments_text_concat(a, b0, first);
        assert((a + b).drop_last() =~= a + b0);
        assert((a + b).last() == b.last());
        assert(fragments_text(a + b, first) =~= fragments_text(a, first) + fragments_text(
            b,
            first + parameter_count(a),
        ));
    }
}

/// The parameters of a query are its argument values, whole, for both kinds
/// of query.
pub proof fn lemma_params_are_args<V>(q: DbQuery<V>)
    ensures
        match q {
            DbQuery::RawSql { args, .. } => q.spec_params() == args@ && q.spec_params().len() == args.len(),
            DbQuery::TemplateSql { args, .. } => q.spec_params() == args@ && q.spec_params().len() == args.len(),
        },
{
}

/// Raw SQL is shown as it is; a template is shown as its fragments with
/// numbering from one, and an empty template shows as nothing.
pub proof fn lemma_query_shown<V>(q: DbQuery<V>, first: nat)
    ensures
        match q {
            DbQuery::RawSql { sql, .. } => q.shown_text() == sql@,
            DbQuery::TemplateSql { fragments, .. } => q.shown_text() == fragments_text(fragments@, 1),
        },
        fragments_text(Seq::empty(), first) == Seq::<char>::empty(),
{
}

/// Every fragment other than literal text takes exactly one placeholder
/// number: a sequence of fragments has as many parameters as non-text
/// fragments.
pub proof fn lemma_parameters_are_non_text_fragments(s: Seq<Fragment>)
    ensures
        parameter_count(s) == s.filter(|f: Fragment| !(f is StringChunk)).len(),
    decreases s.len(),
{
    reveal_with_fuel(Seq::<Fragment>::filter, 1);
    if s.len() > 0 {
        lemma_parameters_are_non_text_fragments(s.drop_last());
    }
}

/// Appending a fragment appends its text: literal text as it is, and a
/// parameter as the placeholder `$k`, where `k` counts on from `first` past
/// the non-text fragments before it; so the k-th parameter of a template shows
/// as `$k` and no two placeholders share a number.
pub proof fn lemma_fragment_shown_after(s: Seq<Fragment>, f: Fragment, first: nat)
    ensures
        ({
            let k = first + s.filter(|g: Fragment| !(g is StringChunk)).len();
            let text = fragments_text(s.push(f), first);
            let before = fragments_text(s, first);
            match f {
                Fragment::StringChunk { chunk } => text == before + chunk@,
                Fragment::Parameter => text == before + seq!['$'] + decimal_text(k),
                Fragment::ParameterTuple => text == before + seq!['[', '$'] + decimal_text(k) + seq![']'],
                Fragment::ParameterTupleList { .. } => text == before + seq!['[', '(', '$'] + decimal_text(
                    k,
                ) + seq![')', ']'],
            }
        }),
{
    lemma_parameters_are_non_text_fragments(s);
    assert(s.push(f).drop_last() =~= s);
    assert(s.push(f).last() == f);
    let k = first + parameter_count(s);
    let text = fragments_text(s.push(f), first);
    let before = fragments_text(s, first);
    match f {
        Fragment::StringChunk { chunk } => {},
        Fragment::Parameter => {
            assert(text =~= before + seq!['$'] + decimal_text(k));
        },
        Fragment::ParameterTuple => {
            assert(text =~= before + seq!['[', '$'] + decimal_text(k) + seq![']']);
        },
        Fragment::ParameterTupleList { .. } => {
            assert(text =~= before + seq!['[', '(', '$'] + decimal_text(k) + seq![')', ']']);
        },
    }
}

/// A sequence of fragments has at most as many parameters as fragments.
pub proof fn lemma_parameter_count_bound(fragments: Seq<Fragment>)
    ensures
        parameter_count(fragments) <= fragments.len(),
    decreases fragments.len(),
{
    if fragments.len() > 0 {
        lemma_parameter_count_bound(fragments.drop_last());
    }
}

} // verus!
