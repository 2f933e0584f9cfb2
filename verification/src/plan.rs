//! A lazy, re-executable tabular query plan, modelled as an immutable value:
//! each transformation returns a new plan referencing the prior one. The plan
//! is schema-annotated; executing it is the engine's business, so the model
//! records structure (selection, global aggregation, union, sort) together
//! with derived attributes an execution must respect: the schema, the row
//! count relative to the source, and the statistic labels the rows carry.

use vstd::prelude::*;

use crate::describe::DescribeMethod;
use crate::errors::EngineError;
use crate::text::str_eq;

verus! {

/// The closed classification of column data types that drives the describe
/// engine's per-column transformation and cast-back policy.
#[derive(Clone, Copy, Debug, PartialEq, Eq, Structural)]
pub enum ColKind {
    Numeric,
    Temporal,
    List,
    Text,
    Other,
}

/// One column of a schema: a name and its type classification.
#[derive(Debug)]
pub struct Column {
    pub name: String,
    pub kind: ColKind,
}

/// The names of a schema's columns, in order.
pub open spec fn names_of(s: Seq<Column>) -> Seq<Seq<char>> {
    s.map_values(|c: Column| c.name@)
}

/// The kinds of a schema's columns, in order.
pub open spec fn kinds_of(s: Seq<Column>) -> Seq<ColKind> {
    s.map_values(|c: Column| c.kind)
}

/// Copies a schema; the copy agrees with the original on names and kinds.
pub fn clone_schema(s: &Vec<Column>) -> (r: Vec<Column>)
    ensures
        names_of(r@) == names_of(s@),
        kinds_of(r@) == kinds_of(s@),
{
    let mut out: Vec<Column> = Vec::new();
    let mut i: usize = 0;
    while i < s.len()
        invariant
            i <= s@.len(),
            out@.len() == i as int,
            forall|j: int|
                0 <= j < i ==> out@[j].name@ == s@[j].name@ && out@[j].kind == s@[j].kind,
        decreases s@.len() - i,
    {
        let c = &s[i];
        out.push(Column { name: c.name.clone(), kind: c.kind });
        i += 1;
    }
    proof {
        assert(names_of(out@) =~= names_of(s@));
        assert(kinds_of(out@) =~= kinds_of(s@));
    }
    out
}

/// A global aggregate function the engine offers.
#[derive(Clone, Copy, Debug, PartialEq, Eq, Structural)]
pub enum AggFn {
    Count,
    Avg,
    Stddev,
    Min,
    Max,
    Median,
}

/// A column-level expression of a selection or a global aggregation. Columns
/// are referenced by position in the input schema; the expression is aliased
/// to the referenced column's name, so names survive every transformation.
#[derive(Clone, Copy, Debug, PartialEq, Eq, Structural)]
pub enum ColExpr {
    /// The column itself, unchanged.
    Col(usize),
    /// The column cast to a numeric type so ordering statistics apply.
    CastComparable(usize),
    /// The element count of a list-typed column.
    ElemCount(usize),
    /// The length of the column's textual cast.
    TextLen(usize),
    /// The column cast toward the given kind.
    CastBack(usize, ColKind),
    /// A global aggregate of the column.
    Agg(AggFn, usize),
    /// The count of null values: a sum over a null-test case expression,
    /// which yields a count even for all-null or all-present columns.
    NullCount(usize),
    /// A typed null aliased to the column, standing for a statistic the
    /// column is excluded from.
    NullOf(usize),
    /// The literal display label of a statistic, aliased `describe`.
    Label(DescribeMethod),
}

/// Whether `e` may stand in a selection over a `w`-column input. Aggregates
/// belong to `Aggregate` nodes, and the unimplemented percentile statistic
/// has no label, so neither is accepted here.
pub open spec fn scalar_expr_valid(e: ColExpr, w: nat) -> bool {
    match e {
        ColExpr::Col(i) => i < w,
        ColExpr::CastComparable(i) => i < w,
        ColExpr::ElemCount(i) => i < w,
        ColExpr::TextLen(i) => i < w,
        ColExpr::CastBack(i, _) => i < w,
        ColExpr::Agg(_, _) => false,
        ColExpr::NullCount(_) => false,
        ColExpr::NullOf(_) => false,
        ColExpr::Label(m) => !(m is Percentile),
    }
}

/// Whether `e` may stand in a global aggregation over a `w`-column input.
pub open spec fn agg_expr_valid(e: ColExpr, w: nat) -> bool {
    match e {
        ColExpr::Agg(_, i) => i < w,
        ColExpr::NullCount(i) => i < w,
        ColExpr::NullOf(i) => i < w,
        _ => false,
    }
}

pub open spec fn scalar_exprs_valid(es: Seq<ColExpr>, w: nat) -> bool {
    forall|j: int| 0 <= j < es.len() ==> scalar_expr_valid(es[j], w)
}

pub open spec fn agg_exprs_valid(es: Seq<ColExpr>, w: nat) -> bool {
    forall|j: int| 0 <= j < es.len() ==> agg_expr_valid(es[j], w)
}

/// The output column name of an expression over input columns `names`.
pub open spec fn expr_out_name(e: ColExpr, names: Seq<Seq<char>>) -> Seq<char> {
    match e {
        ColExpr::Col(i) => names[i as int],
        ColExpr::CastComparable(i) => names[i as int],
        ColExpr::ElemCount(i) => names[i as int],
        ColExpr::TextLen(i) => names[i as int],
        ColExpr::CastBack(i, _) => names[i as int],
        ColExpr::Agg(_, i) => names[i as int],
        ColExpr::NullCount(i) => names[i as int],
        ColExpr::NullOf(i) => names[i as int],
        ColExpr::Label(_) => "describe"@,
    }
}

/// The output column kind of an expression over input columns `kinds`.
pub open spec fn expr_out_kind(e: ColExpr, kinds: Seq<ColKind>) -> ColKind {
    match e {
        ColExpr::Col(i) => kinds[i as int],
        ColExpr::CastComparable(_) => ColKind::Numeric,
        ColExpr::ElemCount(_) => ColKind::Numeric,
        ColExpr::TextLen(_) => ColKind::Numeric,
        ColExpr::CastBack(_, k) => k,
        ColExpr::Agg(_, _) => ColKind::Numeric,
        ColExpr::NullCount(_) => ColKind::Numeric,
        ColExpr::NullOf(_) => ColKind::Numeric,
        ColExpr::Label(_) => ColKind::Text,
    }
}

pub open spec fn out_names(es: Seq<ColExpr>, names: Seq<Seq<char>>) -> Seq<Seq<char>> {
    Seq::new(es.len(), |j: int| expr_out_name(es[j], names))
}

pub open spec fn out_kinds(es: Seq<ColExpr>, kinds: Seq<ColKind>) -> Seq<ColKind> {
    Seq::new(es.len(), |j: int| expr_out_kind(es[j], kinds))
}

/// A query plan node. `Source` stands for the relation the plan is run
/// against; every transformation wraps its input.
#[derive(Debug)]
pub enum Plan {
    Source,
    Select { input: Box<Plan>, exprs: Vec<ColExpr> },
    Aggregate { input: Box<Plan>, aggs: Vec<ColExpr> },
    Union { left: Box<Plan>, right: Box<Plan> },
    Sort { input: Box<Plan>, by: usize, descending: bool },
}

/// Structural equality of plans (expression lists compared by contents).
pub open spec fn plan_equiv(a: Plan, b: Plan) -> bool
    decreases a,
{
    match (a, b) {
        (Plan::Source, Plan::Source) => true,
        (Plan::Select { input: i1, exprs: e1 }, Plan::Select { input: i2, exprs: e2 }) => {
            plan_equiv(*i1, *i2) && e1@ == e2@
        },
        (Plan::Aggregate { input: i1, aggs: a1 }, Plan::Aggregate { input: i2, aggs: a2 }) => {
            plan_equiv(*i1, *i2) && a1@ == a2@
        },
        (Plan::Union { left: l1, right: r1 }, Plan::Union { left: l2, right: r2 }) => {
            plan_equiv(*l1, *l2) && plan_equiv(*r1, *r2)
        },
        (
            Plan::Sort { input: i1, by: b1, descending: d1 },
            Plan::Sort { input: i2, by: b2, descending: d2 },
        ) => plan_equiv(*i1, *i2) && b1 == b2 && d1 == d2,
        _ => false,
    }
}

fn dup_exprs(es: &Vec<ColExpr>) -> (r: Vec<ColExpr>)
    ensures
        r@ == es@,
{
    let mut out: Vec<ColExpr> = Vec::new();
    let mut i: usize = 0;
    while i < es.len()
        invariant
            i <= es@.len(),
            out@ =~= es@.subrange(0, i as int),
        decreases es@.len() - i,
    {
        out.push(es[i]);
        i += 1;
    }
    proof {
        assert(out@ =~= es@);
    }
    out
}

/// Copies a plan; the copy is structurally equal to the original.
pub fn plan_dup(p: &Plan) -> (r: Plan)
    ensures
        plan_equiv(r, *p),
    decreases *p,
{
    match p {
        Plan::Source => Plan::Source,
        Plan::Select { input, exprs } => Plan::Select {
            input: Box::new(plan_dup(&**input)),
            exprs: dup_exprs(exprs),
        },
        Plan::Aggregate { input, aggs } => Plan::Aggregate {
            input: Box::new(plan_dup(&**input)),
            aggs: dup_exprs(aggs),
        },
        Plan::Union { left, right } => Plan::Union {
            left: Box::new(plan_dup(&**left)),
            right: Box::new(plan_dup(&**right)),
        },
        Plan::Sort { input, by, descending } => Plan::Sort {
            input: Box::new(plan_dup(&**input)),
            by: *by,
            descending: *descending,
        },
    }
}

/// The number of rows a plan yields when its source yields `base` rows:
/// selection and sorting preserve rows, a global aggregation yields exactly
/// one row, and a union stacks the rows of its two inputs.
pub open spec fn row_count(p: Plan, base: nat) -> nat
    decreases p,
{
    match p {
        Plan::Source => base,
        Plan::Select { input, .. } => row_count(*input, base),
        Plan::Aggregate { .. } => 1,
        Plan::Union { left, right } => row_count(*left, base) + row_count(*right, base),
        Plan::Sort { input, .. } => row_count(*input, base),
    }
}

/// The statistic labels a plan's rows carry, in row-stacking order: a
/// selection whose first expression is a label literal contributes that
/// label once (its input being a single-row aggregation), and a union
/// concatenates. A final sort permutes rows, so this reads through it.
pub open spec fn branch_methods(p: Plan) -> Seq<DescribeMethod>
    decreases p,
{
    match p {
        Plan::Source => seq![],
        Plan::Select { input, exprs } => {
            if exprs@.len() > 0 && exprs@[0] is Label {
                seq![exprs@[0]->Label_0]
            } else {
                branch_methods(*input)
            }
        },
        Plan::Aggregate { .. } => seq![],
        Plan::Union { left, right } => branch_methods(*left) + branch_methods(*right),
        Plan::Sort { input, .. } => branch_methods(*input),
    }
}

/// A schema-annotated plan: the dataframe value of the model.
#[derive(Debug)]
pub struct Frame {
    pub plan: Plan,
    pub schema: Vec<Column>,
}

/// Whether two schemas agree on names and kinds, the condition for a union.
pub open spec fn schema_compat(a: Seq<Column>, b: Seq<Column>) -> bool {
    names_of(a) == names_of(b) && kinds_of(a) == kinds_of(b)
}

impl Frame {
    /// The dataframe standing directly for a source relation.
    pub fn source(schema: Vec<Column>) -> (r: Frame)
        ensures
            r.plan == Plan::Source,
            r.schema == schema,
    {
        Frame { plan: Plan::Source, schema }
    }

    /// Projects each expression over this frame, aliased as `expr_out_name`
    /// describes. Fails, touching nothing, on an expression that is not a
    /// valid scalar over this schema.
    pub fn select(self, exprs: Vec<ColExpr>) -> (r: Result<Frame, EngineError>)
        ensures
            (r is Ok) <==> scalar_exprs_valid(exprs@, self.schema@.len()),
            (r matches Ok(f) ==> {
                &&& (f.plan matches Plan::Select { input, exprs: es } && *input == self.plan
                    && es@ == exprs@)
                &&& names_of(f.schema@) == out_names(exprs@, names_of(self.schema@))
                &&& kinds_of(f.schema@) == out_kinds(exprs@, kinds_of(self.schema@))
            }),
            (r matches Err(e) ==> e is QueryError),
    {
        let w = self.schema.len();
        let mut out: Vec<Column> = Vec::new();
        let mut i: usize = 0;
        while i < exprs.len()
            invariant
                i <= exprs@.len(),
                w == self.schema@.len(),
                out@.len() == i as int,
                forall|j: int| 0 <= j < i ==> scalar_expr_valid(exprs@[j], w as nat),
                forall|j: int|
                    0 <= j < i ==> out@[j].name@ == expr_out_name(
                        exprs@[j],
                        names_of(self.schema@),
                    ) && out@[j].kind == expr_out_kind(exprs@[j], kinds_of(self.schema@)),
            decreases exprs@.len() - i,
        {
            let e = exprs[i];
            match e {
                ColExpr::Col(ci) => {
                    if ci >= w {
                        return Err(EngineError::QueryError(
                            String::from_str("invalid select expression"),
                        ));
                    }
                    let c = &self.schema[ci];
                    out.push(Column { name: c.name.clone(), kind: c.kind });
                },
                ColExpr::CastComparable(ci) => {
                    if ci >= w {
                        return Err(EngineError::QueryError(
                            String::from_str("invalid select expression"),
                        ));
                    }
                    let c = &self.schema[ci];
                    out.push(Column { name: c.name.clone(), kind: ColKind::Numeric });
                },
                ColExpr::ElemCount(ci) => {
                    if ci >= w {
                        return Err(EngineError::QueryError(
                            String::from_str("invalid select expression"),
                        ));
                    }
                    let c = &self.schema[ci];
                    out.push(Column { name: c.name.clone(), kind: ColKind::Numeric });
                },
                ColExpr::TextLen(ci) => {
                    if ci >= w {
                        return Err(EngineError::QueryError(
                            String::from_str("invalid select expression"),
                        ));
                    }
                    let c = &self.schema[ci];
                    out.push(Column { name: c.name.clone(), kind: ColKind::Numeric });
                },
                ColExpr::CastBack(ci, k) => {
                    if ci >= w {
                        return Err(EngineError::QueryError(
                            String::from_str("invalid select expression"),
                        ));
                    }
                    let c = &self.schema[ci];
                    out.push(Column { name: c.name.clone(), kind: k });
                },
                ColExpr::Label(m) => {
                    if matches!(m, DescribeMethod::Percentile(_)) {
                        return Err(EngineError::QueryError(
                            String::from_str("invalid select expression"),
                        ));
                    }
                    out.push(Column { name: String::from_str("describe"), kind: ColKind::Text });
                },
                _ => {
                    return Err(EngineError::QueryError(
                        String::from_str("invalid select expression"),
                    ));
                },
            }
            i += 1;
        }
        proof {
            assert(names_of(out@) =~= out_names(exprs@, names_of(self.schema@)));
            assert(kinds_of(out@) =~= out_kinds(exprs@, kinds_of(self.schema@)));
        }
        Ok(Frame { plan: Plan::Select { input: Box::new(self.plan), exprs }, schema: out })
    }

    /// Runs a global (no group-by) aggregation: one aggregate expression per
    /// output column, over a single result row. Fails, touching nothing, on
    /// an expression that is not a valid aggregate over this schema.
    pub fn aggregate(self, aggs: Vec<ColExpr>) -> (r: Result<Frame, EngineError>)
        ensures
            (r is Ok) <==> agg_exprs_valid(aggs@, self.schema@.len()),
            (r matches Ok(f) ==> {
                &&& (f.plan matches Plan::Aggregate { input, aggs: es } && *input == self.plan
                    && es@ == aggs@)
                &&& names_of(f.schema@) == out_names(aggs@, names_of(self.schema@))
                &&& kinds_of(f.schema@) == out_kinds(aggs@, kinds_of(self.schema@))
            }),
            (r matches Err(e) ==> e is QueryError),
    {
        let w = self.schema.len();
        let mut out: Vec<Column> = Vec::new();
        let mut i: usize = 0;
        while i < aggs.len()
            invariant
                i <= aggs@.len(),
                w == self.schema@.len(),
                out@.len() == i as int,
                forall|j: int| 0 <= j < i ==> agg_expr_valid(aggs@[j], w as nat),
                forall|j: int|
                    0 <= j < i ==> out@[j].name@ == expr_out_name(
                        aggs@[j],
                        names_of(self.schema@),
                    ) && out@[j].kind == expr_out_kind(aggs@[j], kinds_of(self.schema@)),
            decreases aggs@.len() - i,
        {
            let e = aggs[i];
            match e {
                ColExpr::Agg(_, ci) => {
                    if ci >= w {
                        return Err(EngineError::QueryError(
                            String::from_str("invalid aggregate expression"),
                        ));
                    }
                    let c = &self.schema[ci];
                    out.push(Column { name: c.name.clone(), kind: ColKind::Numeric });
                },
                ColExpr::NullCount(ci) => {
                    if ci >= w {
                        return Err(EngineError::QueryError(
                            String::from_str("invalid aggregate expression"),
                        ));
                    }
                    let c = &self.schema[ci];
                    out.push(Column { name: c.name.clone(), kind: ColKind::Numeric });
                },
                ColExpr::NullOf(ci) => {
                    if ci >= w {
                        return Err(EngineError::QueryError(
                            String::from_str("invalid aggregate expression"),
                        ));
                    }
                    let c = &self.schema[ci];
                    out.push(Column { name: c.name.clone(), kind: ColKind::Numeric });
                },
                _ => {
                    return Err(EngineError::QueryError(
                        String::from_str("invalid aggregate expression"),
                    ));
                },
            }
            i += 1;
        }
        proof {
            assert(names_of(out@) =~= out_names(aggs@, names_of(self.schema@)));
            assert(kinds_of(out@) =~= out_kinds(aggs@, kinds_of(self.schema@)));
        }
        Ok(Frame { plan: Plan::Aggregate { input: Box::new(self.plan), aggs }, schema: out })
    }

    /// Row-stacks `other` under this frame. Fails, touching nothing, unless
    /// the two schemas already agree on names and kinds.
    pub fn union(self, other: Frame) -> (r: Result<Frame, EngineError>)
        ensures
            (r is Ok) <==> schema_compat(self.schema@, other.schema@),
            (r matches Ok(f) ==> {
                &&& (f.plan matches Plan::Union { left, right } && *left == self.plan && *right
                    == other.plan)
                &&& names_of(f.schema@) == names_of(self.schema@)
                &&& kinds_of(f.schema@) == kinds_of(self.schema@)
            }),
            (r matches Err(e) ==> e is QueryError),
    {
        if self.schema.len() != other.schema.len() {
            proof {
                assert(names_of(self.schema@).len() != names_of(other.schema@).len());
            }
            return Err(EngineError::QueryError(String::from_str("union schemas differ")));
        }
        let mut i: usize = 0;
        while i < self.schema.len()
            invariant
                i <= self.schema@.len(),
                self.schema@.len() == other.schema@.len(),
                forall|j: int|
                    0 <= j < i ==> self.schema@[j].name@ == other.schema@[j].name@
                        && self.schema@[j].kind == other.schema@[j].kind,
            decreases self.schema@.len() - i,
        {
            let a = &self.schema[i];
            let b = &other.schema[i];
            if !str_eq(a.name.as_str(), b.name.as_str()) || a.kind != b.kind {
                proof {
                    assert(names_of(self.schema@)[i as int] == self.schema@[i as int].name@);
                    assert(kinds_of(self.schema@)[i as int] == self.schema@[i as int].kind);
                }
                return Err(EngineError::QueryError(String::from_str("union schemas differ")));
            }
            i += 1;
        }
        proof {
            assert(names_of(self.schema@) =~= names_of(other.schema@));
            assert(kinds_of(self.schema@) =~= kinds_of(other.schema@));
        }
        Ok(
            Frame {
                plan: Plan::Union { left: Box::new(self.plan), right: Box::new(other.plan) },
                schema: self.schema,
            },
        )
    }

    /// Sorts by the column at position `by`. Fails, touching nothing, if the
    /// position is outside the schema.
    pub fn sort(self, by: usize, descending: bool) -> (r: Result<Frame, EngineError>)
        ensures
            (r is Ok) <==> (by as nat) < self.schema@.len(),
            (r matches Ok(f) ==> {
                &&& (f.plan matches Plan::Sort { input, by: b, descending: d } && *input
                    == self.plan && b == by && d == descending)
                &&& names_of(f.schema@) == names_of(self.schema@)
                &&& kinds_of(f.schema@) == kinds_of(self.schema@)
            }),
            (r matches Err(e) ==> e is QueryError),
    {
        if by >= self.schema.len() {
            return Err(EngineError::QueryError(String::from_str("sort column out of range")));
        }
        Ok(
            Frame {
                plan: Plan::Sort { input: Box::new(self.plan), by, descending },
                schema: self.schema,
            },
        )
    }
}

} // verus!
