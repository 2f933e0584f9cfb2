use taotie::plan::{ColExpr, ColKind, Column, Frame, Plan};
use taotie::{DataFrameDescriber, DescribeMethod};

fn schema(cols: &[(&str, ColKind)]) -> Vec<Column> {
    cols.iter()
        .map(|(name, kind)| Column { name: name.to_string(), kind: *kind })
        .collect()
}

/// The label literals of the row-stacked branches, left to right.
fn branch_labels(plan: &Plan) -> Vec<DescribeMethod> {
    match plan {
        Plan::Source => vec![],
        Plan::Select { input, exprs } => match exprs.first() {
            Some(ColExpr::Label(m)) => vec![*m],
            _ => branch_labels(input),
        },
        Plan::Aggregate { .. } => vec![],
        Plan::Union { left, right } => {
            let mut out = branch_labels(left);
            out.extend(branch_labels(right));
            out
        }
        Plan::Sort { input, .. } => branch_labels(input),
    }
}

/// The aggregate expressions of the branch labelled `m`.
fn branch_aggs(plan: &Plan, m: DescribeMethod) -> Option<Vec<ColExpr>> {
    match plan {
        Plan::Source => None,
        Plan::Select { input, exprs } => match exprs.first() {
            Some(ColExpr::Label(l)) if *l == m => match input.as_ref() {
                Plan::Aggregate { aggs, .. } => Some(aggs.clone()),
                _ => None,
            },
            _ => branch_aggs(input, m),
        },
        Plan::Aggregate { .. } => None,
        Plan::Union { left, right } => branch_aggs(left, m).or_else(|| branch_aggs(right, m)),
        Plan::Sort { input, .. } => branch_aggs(input, m),
    }
}

fn summarize(cols: &[(&str, ColKind)]) -> Frame {
    let describer = DataFrameDescriber::try_new(Frame::source(schema(cols))).unwrap();
    describer.describe().unwrap()
}

const ALL_SEVEN: [DescribeMethod; 7] = [
    DescribeMethod::Total,
    DescribeMethod::NullTotal,
    DescribeMethod::Mean,
    DescribeMethod::Stddev,
    DescribeMethod::Min,
    DescribeMethod::Max,
    DescribeMethod::Median,
];

#[test]
fn seven_labelled_branches_sorted_by_label() {
    let summary = summarize(&[("age", ColKind::Numeric), ("name", ColKind::Text)]);
    match &summary.plan {
        Plan::Sort { by, descending, .. } => {
            assert_eq!(*by, 0);
            assert!(*descending);
        }
        other => panic!("expected a sort at the root, got {:?}", other),
    }
    assert_eq!(branch_labels(&summary.plan), ALL_SEVEN.to_vec());
}

#[test]
fn summary_schema_prefixes_label_column() {
    let summary = summarize(&[
        ("born", ColKind::Temporal),
        ("tags", ColKind::List),
        ("age", ColKind::Numeric),
        ("name", ColKind::Text),
    ]);
    let names: Vec<&str> = summary.schema.iter().map(|c| c.name.as_str()).collect();
    assert_eq!(names, ["describe", "born", "tags", "age", "name"]);
    let kinds: Vec<ColKind> = summary.schema.iter().map(|c| c.kind).collect();
    assert_eq!(
        kinds,
        [ColKind::Text, ColKind::Temporal, ColKind::Numeric, ColKind::Numeric, ColKind::Numeric]
    );
}

#[test]
fn counting_statistics_cover_every_column() {
    let summary = summarize(&[("age", ColKind::Numeric), ("name", ColKind::Text)]);
    let total = branch_aggs(&summary.plan, DescribeMethod::Total).unwrap();
    assert_eq!(total.len(), 2);
    assert!(total.iter().all(|e| matches!(e, ColExpr::Agg(_, _))));
    let nulls = branch_aggs(&summary.plan, DescribeMethod::NullTotal).unwrap();
    assert_eq!(nulls.len(), 2);
    assert!(nulls.iter().all(|e| matches!(e, ColExpr::NullCount(_))));
}

#[test]
fn order_statistics_are_null_without_numeric_columns() {
    let summary = summarize(&[("name", ColKind::Text), ("notes", ColKind::Other)]);
    for m in [
        DescribeMethod::Mean,
        DescribeMethod::Stddev,
        DescribeMethod::Min,
        DescribeMethod::Max,
        DescribeMethod::Median,
    ] {
        let aggs = branch_aggs(&summary.plan, m).unwrap();
        assert_eq!(aggs.len(), 2);
        assert!(aggs.iter().all(|e| matches!(e, ColExpr::NullOf(_))));
    }
    let total = branch_aggs(&summary.plan, DescribeMethod::Total).unwrap();
    assert!(total.iter().all(|e| matches!(e, ColExpr::Agg(_, _))));
}

#[test]
fn zero_column_dataset_still_summarizes() {
    let summary = summarize(&[]);
    assert_eq!(branch_labels(&summary.plan).len(), 7);
    let names: Vec<&str> = summary.schema.iter().map(|c| c.name.as_str()).collect();
    assert_eq!(names, ["describe"]);
}

#[test]
fn normalization_follows_column_kinds() {
    let describer = DataFrameDescriber::try_new(Frame::source(schema(&[
        ("born", ColKind::Temporal),
        ("tags", ColKind::List),
        ("age", ColKind::Numeric),
        ("name", ColKind::Text),
        ("blob", ColKind::Other),
    ])))
    .unwrap();
    match &describer.transformed.plan {
        Plan::Select { exprs, .. } => {
            assert_eq!(
                exprs.as_slice(),
                [
                    ColExpr::CastComparable(0),
                    ColExpr::ElemCount(1),
                    ColExpr::Col(2),
                    ColExpr::TextLen(3),
                    ColExpr::TextLen(4),
                ]
            );
        }
        other => panic!("expected the normalization selection, got {:?}", other),
    }
}

#[test]
fn statistic_labels() {
    assert_eq!(DescribeMethod::Total.label(), "Total");
    assert_eq!(DescribeMethod::NullTotal.label(), "Null Total");
    assert_eq!(DescribeMethod::Mean.label(), "Mean");
    assert_eq!(DescribeMethod::Stddev.label(), "Stddev");
    assert_eq!(DescribeMethod::Min.label(), "Min");
    assert_eq!(DescribeMethod::Max.label(), "Max");
    assert_eq!(DescribeMethod::Median.label(), "Median");
}

#[test]
fn numeric_statistics_aggregate_only_numeric_columns() {
    let summary = summarize(&[("age", ColKind::Numeric), ("name", ColKind::Text)]);
    let mean = branch_aggs(&summary.plan, DescribeMethod::Mean).unwrap();
    assert!(matches!(mean[0], ColExpr::Agg(_, 0)));
    assert!(matches!(mean[1], ColExpr::NullOf(1)));
}
