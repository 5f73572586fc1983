use vstd::prelude::*;
use vstd::string::*;

verus! {

/// The integer and text columns of one retrieved staging row: a beam, with the metadata
/// of the feature it matched, if any. Coordinates, lengths and distances travel beside it.
#[derive(Debug, Clone, PartialEq, Eq)]
pub struct DownloadRow {
    pub patch_id: i32,
    pub point_id: i32,
    pub timestamp_sec: i32,
    pub timestamp_nanosec: i32,
    pub message_id: i32,
    pub point_id_in_message: i32,
    pub feature_external_id: Option<String>,
    pub feature_name: Option<String>,
    pub feature_class: Option<String>,
    /// Whether a beam-model intersection exists for the beam.
    pub intersects: bool,
}

/// The integer and text columns of a rebuilt point cloud, one entry per row.
#[derive(Debug, Clone, PartialEq, Eq)]
pub struct PointColumns {
    pub ids: Vec<u64>,
    pub timestamp_sec: Vec<i64>,
    pub timestamp_nanosec: Vec<u32>,
    pub message_ids: Vec<i32>,
    pub point_ids_in_message: Vec<i32>,
    pub feature_external_ids: Vec<String>,
    pub feature_names: Vec<String>,
    pub feature_classes: Vec<String>,
    pub intersection_marked: Vec<bool>,
}

/// A text column's value: the text, or empty when the row has none.
pub open spec fn text_or_empty(v: Option<String>) -> Seq<char> {
    match v {
        Some(s) => s@,
        None => Seq::empty(),
    }
}

/// Column `k` holds, for row `k`, the row's value converted to the column's type.
pub open spec fn columns_match(c: PointColumns, rows: Seq<DownloadRow>) -> bool {
    &&& c.ids@.len() == rows.len()
    &&& c.timestamp_sec@.len() == rows.len()
    &&& c.timestamp_nanosec@.len() == rows.len()
    &&& c.message_ids@.len() == rows.len()
    &&& c.point_ids_in_message@.len() == rows.len()
    &&& c.feature_external_ids@.len() == rows.len()
    &&& c.feature_names@.len() == rows.len()
    &&& c.feature_classes@.len() == rows.len()
    &&& c.intersection_marked@.len() == rows.len()
    &&& forall|k: int|
        0 <= k < rows.len() ==> {
            &&& c.ids@[k] == (#[trigger] rows[k]).point_id as u64
            &&& c.timestamp_sec@[k] == rows[k].timestamp_sec as i64
            &&& c.timestamp_nanosec@[k] == rows[k].timestamp_nanosec as u32
            &&& c.message_ids@[k] == rows[k].message_id
            &&& c.point_ids_in_message@[k] == rows[k].point_id_in_message
            &&& c.feature_external_ids@[k]@ == text_or_empty(rows[k].feature_external_id)
            &&& c.feature_names@[k]@ == text_or_empty(rows[k].feature_name)
            &&& c.feature_classes@[k]@ == text_or_empty(rows[k].feature_class)
            &&& c.intersection_marked@[k] == rows[k].intersects
        }
}

fn text_or_empty_exec(v: &Option<String>) -> (r: String)
    ensures
        r@ == text_or_empty(*v),
{
    match v {
        Some(s) => s.clone(),
        None => String::new(),
    }
}

/// Rebuilds the integer and text columns of a point cloud from its retrieved rows, one
/// point per row in row order. A missing feature value becomes the empty text.
pub fn derive_columns(rows: &Vec<DownloadRow>) -> (r: PointColumns)
    ensures
        columns_match(r, rows@),
{
    let mut c = PointColumns {
        ids: Vec::new(),
        timestamp_sec: Vec::new(),
        timestamp_nanosec: Vec::new(),
        message_ids: Vec::new(),
        point_ids_in_message: Vec::new(),
        feature_external_ids: Vec::new(),
        feature_names: Vec::new(),
        feature_classes: Vec::new(),
        intersection_marked: Vec::new(),
    };
    let mut i: usize = 0;
    while i < rows.len()
        invariant
            i <= rows@.len(),
            columns_match(c, rows@.subrange(0, i as int)),
        decreases rows@.len() - i,
    {
        let row = &rows[i];
        c.ids.push(row.point_id as u64);
        c.timestamp_sec.push(row.timestamp_sec as i64);
        c.timestamp_nanosec.push(row.timestamp_nanosec as u32);
        c.message_ids.push(row.message_id);
        c.point_ids_in_message.push(row.point_id_in_message);
        c.feature_external_ids.push(text_or_empty_exec(&row.feature_external_id));
        c.feature_names.push(text_or_empty_exec(&row.feature_name));
        c.feature_classes.push(text_or_empty_exec(&row.feature_class));
        c.intersection_marked.push(row.intersects);
        i = i + 1;
        assert(forall|k: int| 0 <= k < i ==> rows@.subrange(0, i as int)[k] == rows@[k]);
        assert(forall|k: int| 0 <= k < i - 1 ==> rows@.subrange(0, i - 1)[k] == rows@[k]);
    }
    assert(rows@.subrange(0, rows@.len() as int) =~= rows@);
    c
}

} // verus!
