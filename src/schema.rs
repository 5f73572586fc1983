use vstd::prelude::*;
use vstd::string::*;

verus! {

/// Marker for the store's geometry column type.
#[derive(Debug, Clone, Copy, PartialEq, Eq, Structural)]
pub struct Geometry;

/// Marker for the store's point-patch column type.
#[derive(Debug, Clone, Copy, PartialEq, Eq, Structural)]
pub struct Pcpatch;

/// A row of the uploaded-patches table: the ID the store gave the patch.
#[derive(Debug, Clone, Copy, PartialEq, Eq, Structural)]
pub struct Patches {
    pub id: i32,
}

/// The tables this library manages in the store.
#[derive(Debug, Clone, Copy, PartialEq, Eq, Structural)]
pub enum Table {
    PointCloudUpload,
    Beam,
    AssociationPointModel,
    AssociationBeamModel,
    FeatureGeometryData,
    PointCloudDownload,
}

/// Schema-qualified name of a table.
pub open spec fn table_name(t: Table) -> Seq<char> {
    match t {
        Table::PointCloudUpload => "sensor_data.point_cloud_upload"@,
        Table::Beam => "sensor_data.beam"@,
        Table::AssociationPointModel => "sensor_data.association_point_model"@,
        Table::AssociationBeamModel => "sensor_data.association_beam_model"@,
        Table::FeatureGeometryData => "sensor_data.feature_geometry_data"@,
        Table::PointCloudDownload => "sensor_data.point_cloud_download"@,
    }
}

impl Table {
    /// Schema-qualified name of the table.
    pub fn name(&self) -> (r: String)
        ensures
            r@ == table_name(*self),
    {
        match self {
            Table::PointCloudUpload => String::from_str("sensor_data.point_cloud_upload"),
            Table::Beam => String::from_str("sensor_data.beam"),
            Table::AssociationPointModel => String::from_str(
                "sensor_data.association_point_model",
            ),
            Table::AssociationBeamModel => String::from_str("sensor_data.association_beam_model"),
            Table::FeatureGeometryData => String::from_str("sensor_data.feature_geometry_data"),
            Table::PointCloudDownload => String::from_str("sensor_data.point_cloud_download"),
        }
    }
}

} // verus!
