use crate::text::{append_decimal, append_digits, decimal, digits, join_with, joined, views};
use vstd::prelude::*;
use vstd::string::*;

verus! {

/// How the values of one dimension of a point patch are compressed.
#[derive(Debug, Clone, Copy, PartialEq, Eq, Hash, Structural)]
pub enum DimensionCompression {
    NoCompression,
    RunLengthCompression,
    SignificantBitsRemoval,
    Deflate,
}

impl DimensionCompression {
    /// The code that stands for the compression in a serialized patch.
    pub fn code(&self) -> (r: u32)
        ensures
            r == match *self {
                DimensionCompression::NoCompression => 0u32,
                DimensionCompression::RunLengthCompression => 1,
                DimensionCompression::SignificantBitsRemoval => 2,
                DimensionCompression::Deflate => 3,
            },
    {
        match self {
            DimensionCompression::NoCompression => 0,
            DimensionCompression::RunLengthCompression => 1,
            DimensionCompression::SignificantBitsRemoval => 2,
            DimensionCompression::Deflate => 3,
        }
    }
}

/// Byte order of a serialized patch: big-endian (XDR) or little-endian (NDR).
#[derive(Debug, Clone, Copy, PartialEq, Eq, Hash, Structural)]
pub enum Endianess {
    Xdr,
    Ndr,
}

impl Endianess {
    /// The byte that stands for the byte order in a serialized patch.
    pub fn code(&self) -> (r: u8)
        ensures
            r == match *self {
                Endianess::Xdr => 0u8,
                Endianess::Ndr => 1,
            },
    {
        match self {
            Endianess::Xdr => 0,
            Endianess::Ndr => 1,
        }
    }
}

/// One point as the store's patch schema lists its dimensions. Coordinates and intensity
/// are held as the decimal text they are written in.
#[derive(Debug, Clone, PartialEq, Eq)]
pub struct PointRecord {
    pub x: String,
    pub y: String,
    pub z: String,
    pub id: u64,
    pub timestamp_sec: i64,
    pub timestamp_nanosec: u32,
    pub intensity: String,
    pub beam_origin_x: String,
    pub beam_origin_y: String,
    pub beam_origin_z: String,
    pub message_id: u32,
    pub point_id_in_message: u32,
}

/// The values of one point, in the order of the patch schema's dimensions.
pub open spec fn record_values(r: PointRecord) -> Seq<Seq<char>> {
    seq![
        r.x@,
        r.y@,
        r.z@,
        digits(r.id as nat),
        decimal(r.timestamp_sec as int),
        digits(r.timestamp_nanosec as nat),
        r.intensity@,
        r.beam_origin_x@,
        r.beam_origin_y@,
        r.beam_origin_z@,
        digits(r.message_id as nat),
        digits(r.point_id_in_message as nat),
    ]
}

/// The values of the first `n` points, one point after the other.
pub open spec fn patch_values(records: Seq<PointRecord>, n: int) -> Seq<Seq<char>>
    decreases n,
{
    if n <= 0 {
        Seq::empty()
    } else {
        patch_values(records, n - 1) + record_values(records[n - 1])
    }
}

/// The statement that stores `records` as one patch.
pub open spec fn patch_insert_sql(records: Seq<PointRecord>) -> Seq<char> {
    "INSERT INTO sensor_data.point_cloud_upload (pa)\n    SELECT PC_MakePatch(1, ARRAY["@
        + joined(patch_values(records, records.len() as int), ", "@) + "]);"@
}

fn digits_text(n: u64) -> (r: String)
    ensures
        r@ == digits(n as nat),
{
    let mut r = String::new();
    append_digits(&mut r, n);
    assert(r@ =~= digits(n as nat));
    r
}

fn decimal_text(n: i64) -> (r: String)
    ensures
        r@ == decimal(n as int),
{
    let mut r = String::new();
    append_decimal(&mut r, n);
    assert(r@ =~= decimal(n as int));
    r
}

/// Appends the values of one point to `values`.
fn push_record_values(values: &mut Vec<String>, r: &PointRecord)
    ensures
        views(final(values)@) == views(old(values)@) + record_values(*r),
{
    let ghost start = old(values)@;
    values.push(r.x.clone());
    values.push(r.y.clone());
    values.push(r.z.clone());
    values.push(digits_text(r.id));
    values.push(decimal_text(r.timestamp_sec));
    values.push(digits_text(r.timestamp_nanosec as u64));
    values.push(r.intensity.clone());
    values.push(r.beam_origin_x.clone());
    values.push(r.beam_origin_y.clone());
    values.push(r.beam_origin_z.clone());
    values.push(digits_text(r.message_id as u64));
    values.push(digits_text(r.point_id_in_message as u64));
    assert(views(values@) =~= views(start) + record_values(*r));
}

/// In the value list of a patch, the values of point `k` take the positions `12k` to
/// `12k + 11`, in schema order: its coordinates at `12k` to `12k + 2` and its ID at
/// `12k + 3`. Each point is written whole, once, and in its place.
pub proof fn lemma_patch_values_layout(records: Seq<PointRecord>, n: int)
    requires
        0 <= n <= records.len(),
    ensures
        patch_values(records, n).len() == 12 * n,
        forall|k: int, j: int|
            0 <= k < n && 0 <= j < 12 ==> #[trigger] record_values(records[k])[j] == patch_values(
                records,
                n,
            )[12 * k + j],
    decreases n,
{
    if n > 0 {
        lemma_patch_values_layout(records, n - 1);
        let prefix = patch_values(records, n - 1);
        let last = record_values(records[n - 1]);
        assert(last.len() == 12);
        assert forall|k: int, j: int| 0 <= k < n && 0 <= j < 12 implies #[trigger] record_values(
            records[k],
        )[j] == patch_values(records, n)[12 * k + j] by {
            if k < n - 1 {
                assert(record_values(records[k])[j] == prefix[12 * k + j]);
            }
        }
    }
}

/// The statement that stores `records` as one patch of the store's point-patch type,
/// every value of every point in schema order, separated by commas.
pub fn patch_insert_statement(records: &Vec<PointRecord>) -> (r: String)
    ensures
        r@ == patch_insert_sql(records@),
{
    let mut values: Vec<String> = Vec::new();
    let mut i: usize = 0;
    while i < records.len()
        invariant
            i <= records@.len(),
            views(values@) == patch_values(records@, i as int),
        decreases records@.len() - i,
    {
        push_record_values(&mut values, &records[i]);
        i = i + 1;
    }
    let list = join_with(&values, ", ");
    let mut r = String::from_str("INSERT INTO sensor_data.point_cloud_upload (pa)\n    SELECT PC_MakePatch(1, ARRAY[");
    r.append(list.as_str());
    r.append("]);");
    r
}

} // verus!
