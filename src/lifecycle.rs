use crate::schema::{table_name, Table};
use crate::text::{join_with, joined, views};
use vstd::prelude::*;
use vstd::string::*;

verus! {

/// Tables that are truncated together.
#[derive(Debug, Clone, Copy, PartialEq, Eq, Structural)]
pub enum TableGroup {
    /// The staging table of reconstructed download rows.
    Download,
    /// Beams, both kinds of association, and the exploded feature geometry.
    Association,
    /// The uploaded patches.
    Upload,
}

/// Runs that start by clearing tables.
#[derive(Debug, Clone, Copy, PartialEq, Eq, Structural)]
pub enum Operation {
    /// Full reset of every managed table.
    Clear,
    /// An association run, which recomputes beams and associations.
    Associate,
    /// A download run, which recomputes the staging rows.
    Download,
}

/// The tables of a group, in the order in which the truncation names them.
pub open spec fn group_tables(group: TableGroup) -> Seq<Table> {
    match group {
        TableGroup::Download => seq![Table::PointCloudDownload],
        TableGroup::Association => seq![
            Table::FeatureGeometryData,
            Table::AssociationBeamModel,
            Table::AssociationPointModel,
            Table::Beam,
        ],
        TableGroup::Upload => seq![Table::PointCloudUpload],
    }
}

/// The group a table belongs to.
pub open spec fn group_of(t: Table) -> TableGroup {
    match t {
        Table::PointCloudDownload => TableGroup::Download,
        Table::PointCloudUpload => TableGroup::Upload,
        _ => TableGroup::Association,
    }
}

/// The groups an operation truncates before it does its work, in order.
pub open spec fn cleared_groups(op: Operation) -> Seq<TableGroup> {
    match op {
        Operation::Clear => seq![
            TableGroup::Download,
            TableGroup::Association,
            TableGroup::Upload,
        ],
        Operation::Associate => seq![TableGroup::Association],
        Operation::Download => seq![TableGroup::Download],
    }
}

/// Names of a sequence of tables.
pub open spec fn table_names(tables: Seq<Table>) -> Seq<Seq<char>> {
    tables.map_values(|t: Table| table_name(t))
}

/// Text of the statement that truncates a group.
pub open spec fn truncate_sql(group: TableGroup) -> Seq<char> {
    "TRUNCATE TABLE "@ + joined(table_names(group_tables(group)), ","@) + " CASCADE;"@
}

/// The tables of a group.
pub fn tables_of(group: TableGroup) -> (r: Vec<Table>)
    ensures
        r@ == group_tables(group),
{
    let r = match group {
        TableGroup::Download => vec![Table::PointCloudDownload],
        TableGroup::Association => vec![
            Table::FeatureGeometryData,
            Table::AssociationBeamModel,
            Table::AssociationPointModel,
            Table::Beam,
        ],
        TableGroup::Upload => vec![Table::PointCloudUpload],
    };
    assert(r@ =~= group_tables(group));
    r
}

/// The statement that truncates every table of a group. It may run on empty tables.
pub fn truncate_statement(group: TableGroup) -> (r: String)
    ensures
        r@ == truncate_sql(group),
{
    let tables = tables_of(group);
    let mut names: Vec<String> = Vec::new();
    let mut i: usize = 0;
    while i < tables.len()
        invariant
            i <= tables@.len(),
            tables@ == group_tables(group),
            names@.len() == i,
            views(names@) == table_names(tables@.subrange(0, i as int)),
        decreases tables@.len() - i,
    {
        let name = tables[i].name();
        let ghost before = names@;
        names.push(name);
        i = i + 1;
        assert forall|k: int| 0 <= k < i implies #[trigger] views(names@)[k] == table_names(
            tables@.subrange(0, i as int),
        )[k] by {
            if k < i - 1 {
                assert(names@[k] == before[k]);
                assert(views(before)[k] == table_names(tables@.subrange(0, i - 1))[k]);
            }
        }
        assert(views(names@) =~= table_names(tables@.subrange(0, i as int)));
    }
    assert(tables@.subrange(0, tables@.len() as int) =~= tables@);
    let list = join_with(&names, ",");
    let mut r = String::from_str("TRUNCATE TABLE ");
    r.append(list.as_str());
    r.append(" CASCADE;");
    r
}

/// The groups an operation truncates first, in order.
pub fn groups_cleared_by(op: Operation) -> (r: Vec<TableGroup>)
    ensures
        r@ == cleared_groups(op),
{
    let r = match op {
        Operation::Clear => vec![
            TableGroup::Download,
            TableGroup::Association,
            TableGroup::Upload,
        ],
        Operation::Associate => vec![TableGroup::Association],
        Operation::Download => vec![TableGroup::Download],
    };
    assert(r@ =~= cleared_groups(op));
    r
}

/// Row counts after truncating a group: its tables are empty, the others are kept.
pub open spec fn after_truncate(rows: Map<Table, nat>, group: TableGroup) -> Map<Table, nat> {
    Map::new(
        |t: Table| rows.dom().contains(t),
        |t: Table|
            if group_of(t) == group {
                0
            } else {
                rows[t]
            },
    )
}

/// Row counts after truncating each group in turn.
pub open spec fn after_truncations(rows: Map<Table, nat>, groups: Seq<TableGroup>) -> Map<
    Table,
    nat,
>
    decreases groups.len(),
{
    if groups.len() == 0 {
        rows
    } else {
        after_truncations(after_truncate(rows, groups[0]), groups.drop_first())
    }
}

/// A full clear leaves every table empty, whatever the tables held, and a second clear
/// right after it succeeds too and leaves them empty again.
pub proof fn lemma_clear_idempotent(rows: Map<Table, nat>)
    ensures
        forall|t: Table|
            rows.dom().contains(t) ==> #[trigger] after_truncations(
                rows,
                cleared_groups(Operation::Clear),
            )[t] == 0,
        after_truncations(
            after_truncations(rows, cleared_groups(Operation::Clear)),
            cleared_groups(Operation::Clear),
        ) == after_truncations(rows, cleared_groups(Operation::Clear)),
        after_truncations(rows, cleared_groups(Operation::Clear)).dom() == rows.dom(),
{
    reveal_with_fuel(after_truncations, 4);
    let g = cleared_groups(Operation::Clear);
    let once = after_truncations(rows, g);
    let r1 = after_truncate(rows, TableGroup::Download);
    let r2 = after_truncate(r1, TableGroup::Association);
    let r3 = after_truncate(r2, TableGroup::Upload);
    assert(g.drop_first() =~= seq![TableGroup::Association, TableGroup::Upload]);
    assert(g.drop_first().drop_first() =~= seq![TableGroup::Upload]);
    assert(g.drop_first().drop_first().drop_first() =~= Seq::<TableGroup>::empty());
    assert(once == r3);
    assert(forall|t: Table| rows.dom().contains(t) ==> #[trigger] r3[t] == 0);
    let s1 = after_truncate(r3, TableGroup::Download);
    let s2 = after_truncate(s1, TableGroup::Association);
    let s3 = after_truncate(s2, TableGroup::Upload);
    assert(after_truncations(once, g) == s3);
    assert(s3 =~= r3);
}

} // verus!
