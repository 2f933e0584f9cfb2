//! The statistical describe engine: for an arbitrary input dataframe it
//! builds a summary plan with one row per statistic and one column per input
//! column (after a leading label column), by normalizing every column to a
//! numeric-comparable expression, running a fixed battery of global
//! aggregates, labelling and row-stacking the per-statistic results, and
//! casting columns back toward their original types, sorted by label.

use vstd::prelude::*;

use crate::errors::EngineError;
use crate::plan::{
    agg_expr_valid, clone_schema, expr_out_kind, expr_out_name, kinds_of, names_of, out_kinds,
    out_names, plan_dup, plan_equiv, scalar_expr_valid, schema_compat, AggFn, ColExpr, ColKind,
    Column, Frame, Plan,
};
use crate::plan::{branch_methods, row_count};

verus! {

/// A statistic of the summary. `Percentile` is declared but unimplemented:
/// no operation accepts it, so invoking it is rejected at the contract
/// boundary rather than silently computing a wrong value.
#[derive(Clone, Copy, Debug, PartialEq, Eq, Structural)]
pub enum DescribeMethod {
    Total,
    NullTotal,
    Mean,
    Stddev,
    Min,
    Max,
    Median,
    Percentile(u8),
}

/// The display label of a statistic. The unimplemented percentile statistic
/// has none; every operation excludes it.
pub open spec fn label_of(m: DescribeMethod) -> Seq<char> {
    match m {
        DescribeMethod::Total => "Total"@,
        DescribeMethod::NullTotal => "Null Total"@,
        DescribeMethod::Mean => "Mean"@,
        DescribeMethod::Stddev => "Stddev"@,
        DescribeMethod::Min => "Min"@,
        DescribeMethod::Max => "Max"@,
        DescribeMethod::Median => "Median"@,
        DescribeMethod::Percentile(_) => Seq::empty(),
    }
}

/// The seven statistics of a summary, in construction order.
pub open spec fn standard_methods() -> Seq<DescribeMethod> {
    seq![
        DescribeMethod::Total,
        DescribeMethod::NullTotal,
        DescribeMethod::Mean,
        DescribeMethod::Stddev,
        DescribeMethod::Min,
        DescribeMethod::Max,
        DescribeMethod::Median,
    ]
}

impl DescribeMethod {
    /// The human-readable label of this statistic.
    pub fn label(&self) -> (r: &'static str)
        requires
            !(*self is Percentile),
        ensures
            r@ == label_of(*self),
    {
        proof {
            reveal_strlit("Total");
            reveal_strlit("Null Total");
            reveal_strlit("Mean");
            reveal_strlit("Stddev");
            reveal_strlit("Min");
            reveal_strlit("Max");
            reveal_strlit("Median");
        }
        match self {
            DescribeMethod::Total => "Total",
            DescribeMethod::NullTotal => "Null Total",
            DescribeMethod::Mean => "Mean",
            DescribeMethod::Stddev => "Stddev",
            DescribeMethod::Min => "Min",
            DescribeMethod::Max => "Max",
            DescribeMethod::Median => "Median",
            DescribeMethod::Percentile(_) => "",
        }
    }
}

/// The seven statistic labels are pairwise distinct, so a summary carries
/// one row per label.
pub proof fn lemma_labels_distinct()
    ensures
        forall|i: int, j: int|
            0 <= i < j < standard_methods().len() ==> label_of(#[trigger] standard_methods()[i])
                != label_of(#[trigger] standard_methods()[j]),
{
    reveal_strlit("Total");
    reveal_strlit("Null Total");
    reveal_strlit("Mean");
    reveal_strlit("Stddev");
    reveal_strlit("Min");
    reveal_strlit("Max");
    reveal_strlit("Median");
    assert forall|i: int, j: int|
        0 <= i < j < standard_methods().len() implies label_of(
        #[trigger] standard_methods()[i],
    ) != label_of(#[trigger] standard_methods()[j]) by {
        assert("Total"@.len() == 5);
        assert("Null Total"@.len() == 10);
        assert("Mean"@.len() == 4);
        assert("Stddev"@.len() == 6);
        assert("Min"@.len() == 3);
        assert("Max"@.len() == 3);
        assert("Median"@.len() == 6);
        assert("Min"@[1] == 'i' && "Max"@[1] == 'a');
        assert("Stddev"@[0] == 'S' && "Median"@[0] == 'M');
    }
}

/// The aggregate function computing one of the five order statistics, or the
/// non-null count.
pub open spec fn agg_fn_of(m: DescribeMethod) -> AggFn {
    match m {
        DescribeMethod::Total => AggFn::Count,
        DescribeMethod::Mean => AggFn::Avg,
        DescribeMethod::Stddev => AggFn::Stddev,
        DescribeMethod::Min => AggFn::Min,
        DescribeMethod::Max => AggFn::Max,
        DescribeMethod::Median => AggFn::Median,
        _ => AggFn::Count,
    }
}

/// The numeric-comparable expression a column is normalized to: temporal
/// values are cast to a numeric type, numeric values pass through, list
/// values contribute their element count, and everything else the length of
/// its textual cast.
pub open spec fn comparable_expr(i: int, k: ColKind) -> ColExpr {
    match k {
        ColKind::Temporal => ColExpr::CastComparable(i as usize),
        ColKind::Numeric => ColExpr::Col(i as usize),
        ColKind::List => ColExpr::ElemCount(i as usize),
        ColKind::Text => ColExpr::TextLen(i as usize),
        ColKind::Other => ColExpr::TextLen(i as usize),
    }
}

pub open spec fn normalize_exprs(kinds: Seq<ColKind>) -> Seq<ColExpr> {
    Seq::new(kinds.len(), |i: int| comparable_expr(i, kinds[i]))
}

/// The aggregate expression of statistic `m` for the column at `i` whose
/// original kind is `k`: the two counting statistics count every column; the
/// five order statistics aggregate only originally-numeric columns and stand
/// as a typed null for every other column.
pub open spec fn stat_agg_expr(m: DescribeMethod, i: int, k: ColKind) -> ColExpr {
    match m {
        DescribeMethod::Total => ColExpr::Agg(AggFn::Count, i as usize),
        DescribeMethod::NullTotal => ColExpr::NullCount(i as usize),
        DescribeMethod::Percentile(_) => ColExpr::NullOf(i as usize),
        _ => if k is Numeric {
            ColExpr::Agg(agg_fn_of(m), i as usize)
        } else {
            ColExpr::NullOf(i as usize)
        },
    }
}

pub open spec fn stat_aggs(m: DescribeMethod, kinds: Seq<ColKind>) -> Seq<ColExpr> {
    Seq::new(kinds.len(), |i: int| stat_agg_expr(m, i, kinds[i]))
}

/// The selection prefixing a one-row statistic result with its label column.
pub open spec fn label_exprs(m: DescribeMethod, n: nat) -> Seq<ColExpr> {
    seq![ColExpr::Label(m)] + Seq::new(n, |i: int| ColExpr::Col(i as usize))
}

/// The cast-back expression for the summary column at position `pos` whose
/// original kind is `k`: temporal columns return to a temporal type, list
/// columns become a fixed-width integer (their statistic is a count), and
/// every other column keeps its aggregated numeric type.
pub open spec fn cast_back_expr(pos: int, k: ColKind) -> ColExpr {
    match k {
        ColKind::Temporal => ColExpr::CastBack(pos as usize, ColKind::Temporal),
        ColKind::List => ColExpr::CastBack(pos as usize, ColKind::Numeric),
        _ => ColExpr::Col(pos as usize),
    }
}

pub open spec fn cast_back_exprs(kinds: Seq<ColKind>) -> Seq<ColExpr> {
    seq![ColExpr::Col(0usize)] + Seq::new(kinds.len(), |i: int| cast_back_expr(i + 1, kinds[i]))
}

/// The kinds of the summary's statistic columns: temporal columns are cast
/// back to a temporal type, every other column ends numeric.
pub open spec fn summary_kinds(kinds: Seq<ColKind>) -> Seq<ColKind> {
    Seq::new(
        kinds.len(),
        |i: int|
            if kinds[i] is Temporal {
                ColKind::Temporal
            } else {
                ColKind::Numeric
            },
    )
}

/// One labelled statistic branch: the label selection over the global
/// aggregation of statistic `m`, over the normalized input.
pub open spec fn stat_branch_ok(p: Plan, m: DescribeMethod, kinds: Seq<ColKind>) -> bool {
    p matches Plan::Select { input, exprs } && exprs@ == label_exprs(m, kinds.len()) && (
    *input matches Plan::Aggregate { input: agg_in, aggs } && aggs@ == stat_aggs(m, kinds) && (
    *agg_in matches Plan::Select { exprs: norm, .. } && norm@ == normalize_exprs(kinds)))
}

/// A left-leaning row-stack of one labelled branch per statistic of `ms`.
pub open spec fn union_chain_ok(p: Plan, ms: Seq<DescribeMethod>, kinds: Seq<ColKind>) -> bool
    decreases ms.len(),
{
    if ms.len() == 0 {
        false
    } else if ms.len() == 1 {
        stat_branch_ok(p, ms[0], kinds)
    } else {
        p matches Plan::Union { left, right } && union_chain_ok(*left, ms.drop_last(), kinds)
            && stat_branch_ok(*right, ms.last(), kinds)
    }
}

/// The full shape of a summary plan over original column kinds `kinds`:
/// the cast-back selection over the seven-branch row-stack, sorted by the
/// label column, descending.
pub open spec fn describe_plan_ok(p: Plan, kinds: Seq<ColKind>) -> bool {
    p matches Plan::Sort { input, by, descending } && by == 0 && descending == true && (
    *input matches Plan::Select { input: chain, exprs } && exprs@ == cast_back_exprs(kinds)
        && union_chain_ok(*chain, standard_methods(), kinds))
}

/// One labelled statistic branch yields exactly one row: it selects over a
/// global aggregation.
proof fn lemma_branch_rows(p: Plan, m: DescribeMethod, kinds: Seq<ColKind>, base: nat)
    requires
        stat_branch_ok(p, m, kinds),
    ensures
        row_count(p, base) == 1,
{
    let input = p->Select_input;
    assert(row_count(p, base) == row_count(*input, base));
    assert(row_count(*input, base) == 1);
}

/// A summary plan yields exactly as many rows as it has statistic branches,
/// whatever the source's row count: each branch is a global aggregation.
pub proof fn lemma_chain_rows(p: Plan, ms: Seq<DescribeMethod>, kinds: Seq<ColKind>, base: nat)
    requires
        union_chain_ok(p, ms, kinds),
    ensures
        row_count(p, base) == ms.len(),
    decreases ms.len(),
{
    if ms.len() == 1 {
        lemma_branch_rows(p, ms[0], kinds, base);
    } else {
        lemma_chain_rows(*p->left, ms.drop_last(), kinds, base);
        lemma_branch_rows(*p->right, ms.last(), kinds, base);
        assert(row_count(p, base) == row_count(*p->left, base) + row_count(*p->right, base));
    }
}

/// The statistic labels carried by a row-stack are exactly its statistics,
/// in order.
pub proof fn lemma_chain_methods(p: Plan, ms: Seq<DescribeMethod>, kinds: Seq<ColKind>)
    requires
        union_chain_ok(p, ms, kinds),
    ensures
        branch_methods(p) == ms,
    decreases ms.len(),
{
    if ms.len() == 1 {
        assert(label_exprs(ms[0], kinds.len())[0] == ColExpr::Label(ms[0]));
        assert(branch_methods(p) =~= ms);
    } else {
        lemma_chain_methods(*p->left, ms.drop_last(), kinds);
        let right = *p->right;
        assert(label_exprs(ms.last(), kinds.len())[0] == ColExpr::Label(ms.last()));
        assert(branch_methods(right) =~= seq![ms.last()]);
        assert(branch_methods(p) == branch_methods(*p->left) + branch_methods(right));
        assert(branch_methods(p) =~= ms);
    }
}

/// For any input dataframe the summary has exactly seven rows, one per
/// statistic, whatever the source's row count; it is sorted by the label
/// column, descending; and each branch aggregates as its statistic demands.
pub proof fn lemma_summary_shape(p: Plan, kinds: Seq<ColKind>, base: nat)
    requires
        describe_plan_ok(p, kinds),
    ensures
        row_count(p, base) == 7,
        branch_methods(p) == standard_methods(),
        (p matches Plan::Sort { by, descending, .. } && by == 0 && descending),
{
    let input = p->Sort_input;
    let chain = (*input)->Select_input;
    lemma_chain_rows(*chain, standard_methods(), kinds, base);
    lemma_chain_methods(*chain, standard_methods(), kinds);
    assert(row_count(p, base) == row_count(*input, base));
    assert(row_count(*input, base) == row_count(*chain, base));
    assert(cast_back_exprs(kinds)[0] == ColExpr::Col(0usize));
    assert(branch_methods(p) == branch_methods(*input));
    assert(branch_methods(*input) == branch_methods(*chain));
}

/// The value the plan itself fixes for a counting aggregate over a column
/// with `rows` rows of which `nulls` are null, independent of the engine:
/// the non-null count or the null count. Every other statistic's value
/// belongs to the engine and is not modelled.
pub open spec fn count_value(e: ColExpr, rows: nat, nulls: nat) -> Option<nat>
    recommends
        nulls <= rows,
{
    match e {
        ColExpr::Agg(AggFn::Count, _) => Some((rows - nulls) as nat),
        ColExpr::NullCount(_) => Some(nulls),
        _ => None,
    }
}

/// On a zero-row dataset the summary still has its seven rows, and every
/// `Total` and `Null Total` entry is a count that is zero — the order
/// statistics stand as nulls, never as an error.
pub proof fn lemma_empty_dataset(p: Plan, kinds: Seq<ColKind>)
    requires
        describe_plan_ok(p, kinds),
    ensures
        row_count(p, 0) == 7,
        forall|i: int|
            0 <= i < kinds.len() ==> count_value(
                #[trigger] stat_aggs(DescribeMethod::Total, kinds)[i],
                0,
                0,
            ) == Some(0nat),
        forall|i: int|
            0 <= i < kinds.len() ==> count_value(
                #[trigger] stat_aggs(DescribeMethod::NullTotal, kinds)[i],
                0,
                0,
            ) == Some(0nat),
{
    lemma_summary_shape(p, kinds, 0);
}

/// With no numeric column, each of the five order-statistic rows carries a
/// typed null for every column, while `Total` and `Null Total` still count
/// every column. (`describe_plan_ok` pins `stat_aggs(m, kinds)` as exactly
/// the aggregate battery of the branch labelled `m`.)
pub proof fn lemma_no_numeric_columns(m: DescribeMethod, kinds: Seq<ColKind>)
    requires
        m is Mean || m is Stddev || m is Min || m is Max || m is Median,
        forall|i: int| 0 <= i < kinds.len() ==> !(#[trigger] kinds[i] is Numeric),
    ensures
        forall|i: int| 0 <= i < kinds.len() ==> #[trigger] stat_aggs(m, kinds)[i] is NullOf,
        forall|i: int|
            0 <= i < kinds.len() ==> #[trigger] stat_aggs(DescribeMethod::Total, kinds)[i]
                == ColExpr::Agg(AggFn::Count, i as usize),
        forall|i: int|
            0 <= i < kinds.len() ==> #[trigger] stat_aggs(DescribeMethod::NullTotal, kinds)[i]
                == ColExpr::NullCount(i as usize),
{
}

fn build_normalize(schema: &Vec<Column>) -> (r: Vec<ColExpr>)
    ensures
        r@ == normalize_exprs(kinds_of(schema@)),
{
    let mut out: Vec<ColExpr> = Vec::new();
    let mut i: usize = 0;
    while i < schema.len()
        invariant
            i <= schema@.len(),
            out@.len() == i as int,
            forall|j: int| 0 <= j < i ==> out@[j] == comparable_expr(j, kinds_of(schema@)[j]),
        decreases schema@.len() - i,
    {
        let e = match schema[i].kind {
            ColKind::Temporal => ColExpr::CastComparable(i),
            ColKind::Numeric => ColExpr::Col(i),
            ColKind::List => ColExpr::ElemCount(i),
            ColKind::Text => ColExpr::TextLen(i),
            ColKind::Other => ColExpr::TextLen(i),
        };
        out.push(e);
        i += 1;
    }
    proof {
        assert(out@ =~= normalize_exprs(kinds_of(schema@)));
    }
    out
}

fn build_stat_aggs(m: DescribeMethod, schema: &Vec<Column>) -> (r: Vec<ColExpr>)
    requires
        !(m is Percentile),
    ensures
        r@ == stat_aggs(m, kinds_of(schema@)),
{
    let mut out: Vec<ColExpr> = Vec::new();
    let mut i: usize = 0;
    while i < schema.len()
        invariant
            i <= schema@.len(),
            out@.len() == i as int,
            !(m is Percentile),
            forall|j: int| 0 <= j < i ==> out@[j] == stat_agg_expr(m, j, kinds_of(schema@)[j]),
        decreases schema@.len() - i,
    {
        let e = match m {
            DescribeMethod::Total => ColExpr::Agg(AggFn::Count, i),
            DescribeMethod::NullTotal => ColExpr::NullCount(i),
            DescribeMethod::Mean => {
                if matches!(schema[i].kind, ColKind::Numeric) {
                    ColExpr::Agg(AggFn::Avg, i)
                } else {
                    ColExpr::NullOf(i)
                }
            },
            DescribeMethod::Stddev => {
                if matches!(schema[i].kind, ColKind::Numeric) {
                    ColExpr::Agg(AggFn::Stddev, i)
                } else {
                    ColExpr::NullOf(i)
                }
            },
            DescribeMethod::Min => {
                if matches!(schema[i].kind, ColKind::Numeric) {
                    ColExpr::Agg(AggFn::Min, i)
                } else {
                    ColExpr::NullOf(i)
                }
            },
            DescribeMethod::Max => {
                if matches!(schema[i].kind, ColKind::Numeric) {
                    ColExpr::Agg(AggFn::Max, i)
                } else {
                    ColExpr::NullOf(i)
                }
            },
            DescribeMethod::Median => {
                if matches!(schema[i].kind, ColKind::Numeric) {
                    ColExpr::Agg(AggFn::Median, i)
                } else {
                    ColExpr::NullOf(i)
                }
            },
            DescribeMethod::Percentile(_) => ColExpr::NullOf(i),
        };
        out.push(e);
        i += 1;
    }
    proof {
        assert(out@ =~= stat_aggs(m, kinds_of(schema@)));
    }
    out
}

fn build_label_exprs(m: DescribeMethod, n: usize) -> (r: Vec<ColExpr>)
    ensures
        r@ == label_exprs(m, n as nat),
{
    let mut out: Vec<ColExpr> = Vec::new();
    out.push(ColExpr::Label(m));
    let mut i: usize = 0;
    while i < n
        invariant
            i <= n,
            out@.len() == i + 1,
            out@[0] == ColExpr::Label(m),
            forall|j: int| 1 <= j < i + 1 ==> out@[j] == ColExpr::Col((j - 1) as usize),
        decreases n - i,
    {
        out.push(ColExpr::Col(i));
        i += 1;
    }
    proof {
        assert(out@ =~= label_exprs(m, n as nat));
    }
    out
}

fn build_cast_back(schema: &Vec<Column>) -> (r: Vec<ColExpr>)
    ensures
        r@ == cast_back_exprs(kinds_of(schema@)),
{
    let mut out: Vec<ColExpr> = Vec::new();
    out.push(ColExpr::Col(0));
    let mut i: usize = 0;
    while i < schema.len()
        invariant
            i <= schema@.len(),
            out@.len() == i + 1,
            out@[0] == ColExpr::Col(0usize),
            forall|j: int| 1 <= j < i + 1 ==> out@[j] == cast_back_expr(j, kinds_of(schema@)[j - 1]),
        decreases schema@.len() - i,
    {
        let e = match schema[i].kind {
            ColKind::Temporal => ColExpr::CastBack(i + 1, ColKind::Temporal),
            ColKind::List => ColExpr::CastBack(i + 1, ColKind::Numeric),
            _ => ColExpr::Col(i + 1),
        };
        out.push(e);
        i += 1;
    }
    proof {
        assert(out@ =~= cast_back_exprs(kinds_of(schema@)));
    }
    out
}

/// The describe engine's working state: the input dataframe, its normalized
/// (numeric-comparable) counterpart, and the battery of statistics to run.
#[derive(Debug)]
pub struct DataFrameDescriber {
    pub original: Frame,
    pub transformed: Frame,
    pub methods: Vec<DescribeMethod>,
}

impl DataFrameDescriber {
    /// Well-formedness: the transformed frame is the normalization selection
    /// over the input, names survive it, every transformed column is
    /// numeric, and the methods are the standard seven.
    pub open spec fn wf(self) -> bool {
        &&& (self.transformed.plan matches Plan::Select { input, exprs } && plan_equiv(
            *input,
            self.original.plan,
        ) && exprs@ == normalize_exprs(kinds_of(self.original.schema@)))
        &&& names_of(self.transformed.schema@) == names_of(self.original.schema@)
        &&& kinds_of(self.transformed.schema@) == out_kinds(
            normalize_exprs(kinds_of(self.original.schema@)),
            kinds_of(self.original.schema@),
        )
        &&& self.methods@ == standard_methods()
    }

    /// Prepares the summary computation for `df`. Succeeds for every input,
    /// an empty schema included.
    pub fn try_new(df: Frame) -> (r: Result<DataFrameDescriber, EngineError>)
        ensures
            r is Ok,
            (r matches Ok(d) ==> d.wf() && d.original == df),
    {
        let exprs = build_normalize(&df.schema);
        let base = Frame { plan: plan_dup(&df.plan), schema: clone_schema(&df.schema) };
        let ghost base_names = names_of(base.schema@);
        proof {
            assert forall|j: int|
                0 <= j < normalize_exprs(kinds_of(df.schema@)).len() implies scalar_expr_valid(
                normalize_exprs(kinds_of(df.schema@))[j],
                base.schema@.len(),
            ) by {
                assert(kinds_of(base.schema@).len() == kinds_of(df.schema@).len());
            }
        }
        let transformed = match base.select(exprs) {
            Ok(f) => f,
            Err(e) => {
                proof {
                    assert(false);
                }
                return Err(e);
            },
        };
        let mut methods: Vec<DescribeMethod> = Vec::new();
        methods.push(DescribeMethod::Total);
        methods.push(DescribeMethod::NullTotal);
        methods.push(DescribeMethod::Mean);
        methods.push(DescribeMethod::Stddev);
        methods.push(DescribeMethod::Min);
        methods.push(DescribeMethod::Max);
        methods.push(DescribeMethod::Median);
        proof {
            assert(methods@ =~= standard_methods());
        }
        let d = DataFrameDescriber { original: df, transformed, methods };
        proof {
            let kinds = kinds_of(d.original.schema@);
            let names = names_of(d.original.schema@);
            assert(d.original.schema.len() == d.original.schema@.len());
            assert(names_of(d.transformed.schema@) =~= names) by {
                assert forall|j: int| 0 <= j < kinds.len() implies names_of(
                    d.transformed.schema@,
                )[j] == names[j] by {
                    assert(normalize_exprs(kinds)[j] == comparable_expr(j, kinds[j]));
                    assert(base_names[j] == names[j]);
                }
            }
        }
        Ok(d)
    }

    /// Builds the labelled, row-stacked summary of all seven statistics over
    /// the normalized frame. Never fails: the construction of every
    /// statistic is valid over every schema.
    pub fn do_describe(&self) -> (r: Result<Frame, EngineError>)
        requires
            self.wf(),
        ensures
            r is Ok,
            (r matches Ok(f) ==> {
                &&& union_chain_ok(f.plan, standard_methods(), kinds_of(self.original.schema@))
                &&& names_of(f.schema@) == seq!["describe"@] + names_of(self.original.schema@)
                &&& kinds_of(f.schema@) == seq![ColKind::Text] + out_kinds(
                    stat_aggs(DescribeMethod::Total, kinds_of(self.original.schema@)),
                    kinds_of(self.transformed.schema@),
                )
            }),
    {
        let ghost kinds = kinds_of(self.original.schema@);
        let ghost orig_names = names_of(self.original.schema@);
        let n = self.original.schema.len();
        let mut acc: Option<Frame> = None;
        let mut i: usize = 0;
        while i < self.methods.len()
            invariant
                self.wf(),
                kinds == kinds_of(self.original.schema@),
                orig_names == names_of(self.original.schema@),
                n == self.original.schema@.len(),
                i <= 7,
                self.methods@.len() == 7,
                i == 0 ==> acc is None,
                i > 0 ==> (acc matches Some(f) && {
                    &&& union_chain_ok(f.plan, standard_methods().subrange(0, i as int), kinds)
                    &&& names_of(f.schema@) == seq!["describe"@] + orig_names
                    &&& kinds_of(f.schema@).len() == n + 1
                    &&& kinds_of(f.schema@)[0] is Text
                    &&& forall|j: int| 1 <= j < n + 1 ==> kinds_of(f.schema@)[j] is Numeric
                }),
            decreases self.methods@.len() - i,
        {
            let m = self.methods[i];
            proof {
                assert(standard_methods()[i as int] == m);
                assert(!(m is Percentile));
            }
            let t = Frame {
                plan: plan_dup(&self.transformed.plan),
                schema: clone_schema(&self.transformed.schema),
            };
            let aggs = build_stat_aggs(m, &self.original.schema);
            proof {
                assert(kinds_of(t.schema@).len() == n);
                assert forall|j: int| 0 <= j < stat_aggs(m, kinds).len() implies agg_expr_valid(
                    #[trigger] stat_aggs(m, kinds)[j],
                    t.schema@.len(),
                ) by {}
            }
            let stat = match t.aggregate(aggs) {
                Ok(f) => f,
                Err(e) => {
                    proof {
                        assert(false);
                    }
                    return Err(e);
                },
            };
            proof {
                assert(names_of(stat.schema@) =~= names_of(self.transformed.schema@)) by {
                    assert(names_of(stat.schema@) == out_names(
                        stat_aggs(m, kinds),
                        names_of(t.schema@),
                    ));
                    assert(names_of(t.schema@) =~= names_of(self.transformed.schema@));
                    assert forall|j: int| 0 <= j < names_of(stat.schema@).len() implies
                        names_of(stat.schema@)[j] == names_of(self.transformed.schema@)[j] by {
                        assert(stat_aggs(m, kinds)[j] == stat_agg_expr(m, j, kinds[j]));
                    }
                }
            }
            let labels = build_label_exprs(m, n);
            proof {
                assert forall|j: int| 0 <= j < label_exprs(m, n as nat).len() implies
                    scalar_expr_valid(#[trigger] label_exprs(m, n as nat)[j], stat.schema@.len())
                    by {
                    assert(stat.schema@.len() == n);
                }
            }
            let labeled = match stat.select(labels) {
                Ok(f) => f,
                Err(e) => {
                    proof {
                        assert(false);
                    }
                    return Err(e);
                },
            };
            proof {
                assert(stat_branch_ok(labeled.plan, m, kinds));
                assert(names_of(labeled.schema@) =~= seq!["describe"@] + orig_names) by {
                    assert(names_of(labeled.schema@) == out_names(
                        label_exprs(m, n as nat),
                        names_of(stat.schema@),
                    ));
                    assert forall|j: int| 0 <= j < n + 1 implies names_of(labeled.schema@)[j] == (
                    seq!["describe"@] + orig_names)[j] by {
                        if j > 0 {
                            assert(label_exprs(m, n as nat)[j] == ColExpr::Col((j - 1) as usize));
                        }
                    }
                }
                assert(kinds_of(labeled.schema@).len() == n + 1);
                assert(kinds_of(labeled.schema@)[0] is Text);
                assert forall|j: int| 1 <= j < n + 1 implies kinds_of(labeled.schema@)[j]
                    is Numeric by {
                    assert(label_exprs(m, n as nat)[j] == ColExpr::Col((j - 1) as usize));
                    assert(kinds_of(stat.schema@)[j - 1] is Numeric) by {
                        assert(kinds_of(stat.schema@) == out_kinds(
                            stat_aggs(m, kinds),
                            kinds_of(t.schema@),
                        ));
                        assert(stat_aggs(m, kinds)[j - 1] == stat_agg_expr(m, j - 1, kinds[j - 1]));
                    }
                }
            }
            acc = match acc {
                None => {
                    proof {
                        assert(standard_methods().subrange(0, 1) =~= seq![
                            standard_methods()[0],
                        ]);
                    }
                    Some(labeled)
                },
                Some(a) => {
                    proof {
                        assert(kinds_of(a.schema@) =~= kinds_of(labeled.schema@));
                        assert(schema_compat(a.schema@, labeled.schema@));
                    }
                    let u = match a.union(labeled) {
                        Ok(f) => f,
                        Err(e) => {
                            proof {
                                assert(false);
                            }
                            return Err(e);
                        },
                    };
                    proof {
                        assert(standard_methods().subrange(0, i + 1).drop_last() =~= standard_methods().subrange(0, i as int));
                        assert(standard_methods().subrange(0, i + 1).last() == m);
                        assert(union_chain_ok(
                            u.plan,
                            standard_methods().subrange(0, i + 1),
                            kinds,
                        ));
                    }
                    Some(u)
                },
            };
            i += 1;
        }
        match acc {
            Some(f) => {
                proof {
                    assert(standard_methods().subrange(0, 7) =~= standard_methods());
                    assert(kinds_of(f.schema@) =~= seq![ColKind::Text] + out_kinds(
                        stat_aggs(DescribeMethod::Total, kinds),
                        kinds_of(self.transformed.schema@),
                    )) by {
                        assert forall|j: int| 0 <= j < n implies out_kinds(
                            stat_aggs(DescribeMethod::Total, kinds),
                            kinds_of(self.transformed.schema@),
                        )[j] is Numeric by {
                            assert(stat_aggs(DescribeMethod::Total, kinds)[j] == stat_agg_expr(
                                DescribeMethod::Total,
                                j,
                                kinds[j],
                            ));
                        }
                    }
                }
                Ok(f)
            },
            None => {
                proof {
                    assert(false);
                }
                Err(EngineError::QueryError(String::from_str("no dataframe found")))
            },
        }
    }

    /// Casts the summary's statistic columns back toward the original column
    /// types and sorts by the label column, descending.
    pub fn cast_back(&self, df: Frame) -> (r: Result<Frame, EngineError>)
        requires
            self.wf(),
            df.schema@.len() == self.original.schema@.len() + 1,
        ensures
            r is Ok,
            (r matches Ok(f) ==> {
                &&& (f.plan matches Plan::Sort { input, by, descending } && by == 0 && descending
                    == true && (*input matches Plan::Select { input: inner, exprs } && exprs@
                    == cast_back_exprs(kinds_of(self.original.schema@)) && *inner == df.plan))
                &&& names_of(f.schema@) == out_names(
                    cast_back_exprs(kinds_of(self.original.schema@)),
                    names_of(df.schema@),
                )
                &&& kinds_of(f.schema@) == out_kinds(
                    cast_back_exprs(kinds_of(self.original.schema@)),
                    kinds_of(df.schema@),
                )
            }),
    {
        let ghost kinds = kinds_of(self.original.schema@);
        let ghost df_names = names_of(df.schema@);
        proof {
            assert(self.original.schema.len() == self.original.schema@.len());
        }
        let exprs = build_cast_back(&self.original.schema);
        proof {
            assert forall|j: int| 0 <= j < cast_back_exprs(kinds).len() implies scalar_expr_valid(
                #[trigger] cast_back_exprs(kinds)[j],
                df.schema@.len(),
            ) by {
                if j > 0 {
                    assert(cast_back_exprs(kinds)[j] == cast_back_expr(j, kinds[j - 1]));
                } else {
                    assert(cast_back_exprs(kinds)[0] == ColExpr::Col(0usize));
                }
            }
        }
        let selected = match df.select(exprs) {
            Ok(f) => f,
            Err(e) => {
                proof {
                    assert(false);
                }
                return Err(e);
            },
        };
        proof {
            assert(names_of(selected.schema@).len() == selected.schema@.len());
            assert(out_names(cast_back_exprs(kinds), df_names).len() == cast_back_exprs(
                kinds,
            ).len());
            assert(cast_back_exprs(kinds).len() == kinds.len() + 1);
        }
        match selected.sort(0, true) {
            Ok(f) => Ok(f),
            Err(e) => {
                proof {
                    assert(false);
                }
                Err(e)
            },
        }
    }

    /// The statistical summary of the input dataframe: seven rows, one per
    /// statistic label, whatever the source's row count; a leading text
    /// label column followed by one column per input column, cast back
    /// toward the input's types; sorted by label, descending. Succeeds for
    /// every input, zero-row and zero-column inputs included.
    pub fn describe(&self) -> (r: Result<Frame, EngineError>)
        requires
            self.wf(),
        ensures
            r is Ok,
            (r matches Ok(f) ==> {
                &&& describe_plan_ok(f.plan, kinds_of(self.original.schema@))
                &&& forall|base: nat| row_count(f.plan, base) == 7
                &&& branch_methods(f.plan) == standard_methods()
                &&& names_of(f.schema@) == seq!["describe"@] + names_of(self.original.schema@)
                &&& kinds_of(f.schema@) == seq![ColKind::Text] + summary_kinds(
                    kinds_of(self.original.schema@),
                )
            }),
    {
        let ghost kinds = kinds_of(self.original.schema@);
        let ghost orig_names = names_of(self.original.schema@);
        let df = match self.do_describe() {
            Ok(f) => f,
            Err(e) => {
                proof {
                    assert(false);
                }
                return Err(e);
            },
        };
        let ghost df_names = names_of(df.schema@);
        let ghost df_kinds = kinds_of(df.schema@);
        proof {
            assert(df_names.len() == df.schema@.len());
            assert(df_names == seq!["describe"@] + orig_names);
            assert(df_names.len() == orig_names.len() + 1);
            assert(orig_names.len() == self.original.schema@.len());
        }
        let r = self.cast_back(df);
        proof {
            let f = r->Ok_0;
            let n = kinds.len() as int;
            assert(self.original.schema.len() == self.original.schema@.len());
            assert(describe_plan_ok(f.plan, kinds));
            assert forall|base: nat| row_count(f.plan, base) == 7 by {
                lemma_summary_shape(f.plan, kinds, base);
            }
            lemma_summary_shape(f.plan, kinds, 0);
            assert(names_of(f.schema@) == out_names(cast_back_exprs(kinds), df_names));
            assert(kinds_of(f.schema@) == out_kinds(cast_back_exprs(kinds), df_kinds));
            assert(cast_back_exprs(kinds).len() == n + 1);
            assert(names_of(f.schema@) =~= seq!["describe"@] + orig_names) by {
                assert forall|j: int| 0 <= j < n + 1 implies names_of(f.schema@)[j] == (
                seq!["describe"@] + orig_names)[j] by {
                    assert(names_of(f.schema@)[j] == expr_out_name(
                        cast_back_exprs(kinds)[j],
                        df_names,
                    ));
                    if j > 0 {
                        assert(cast_back_exprs(kinds)[j] == cast_back_expr(j, kinds[j - 1]));
                        assert(expr_out_name(cast_back_expr(j, kinds[j - 1]), df_names)
                            == df_names[j]);
                    } else {
                        assert(cast_back_exprs(kinds)[0] == ColExpr::Col(0usize));
                        assert(expr_out_name(ColExpr::Col(0usize), df_names) == df_names[0]);
                    }
                    assert(df_names[j] == (seq!["describe"@] + orig_names)[j]);
                }
            }
            assert(kinds_of(f.schema@) =~= seq![ColKind::Text] + summary_kinds(kinds)) by {
                assert forall|j: int| 0 <= j < n + 1 implies kinds_of(f.schema@)[j] == (
                seq![ColKind::Text] + summary_kinds(kinds))[j] by {
                    assert(kinds_of(f.schema@)[j] == expr_out_kind(
                        cast_back_exprs(kinds)[j],
                        df_kinds,
                    ));
                    if j > 0 {
                        assert(cast_back_exprs(kinds)[j] == cast_back_expr(j, kinds[j - 1]));
                        if kinds[j - 1] is Temporal {
                            assert(expr_out_kind(cast_back_expr(j, kinds[j - 1]), df_kinds)
                                == ColKind::Temporal);
                        } else if kinds[j - 1] is List {
                            assert(expr_out_kind(cast_back_expr(j, kinds[j - 1]), df_kinds)
                                == ColKind::Numeric);
                        } else {
                            assert(expr_out_kind(cast_back_expr(j, kinds[j - 1]), df_kinds)
                                == df_kinds[j]);
                            assert(df_kinds[j] == out_kinds(
                                stat_aggs(DescribeMethod::Total, kinds),
                                kinds_of(self.transformed.schema@),
                            )[j - 1]);
                            assert(stat_aggs(DescribeMethod::Total, kinds)[j - 1]
                                == stat_agg_expr(DescribeMethod::Total, j - 1, kinds[j - 1]));
                            assert(df_kinds[j] == ColKind::Numeric);
                        }
                        assert((seq![ColKind::Text] + summary_kinds(kinds))[j] == summary_kinds(
                            kinds,
                        )[j - 1]);
                    } else {
                        assert(cast_back_exprs(kinds)[0] == ColExpr::Col(0usize));
                        assert(df_kinds[0] is Text);
                        assert(df_kinds[0] == ColKind::Text);
                    }
                }
            }
        }
        r
    }
}

} // verus!
