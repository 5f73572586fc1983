use crate::lifecycle::{truncate_sql, truncate_statement, TableGroup};
use crate::text::{append_decimal, decimal};
use vstd::prelude::*;
use vstd::string::*;

verus! {

/// Turns a stored patch back into beams: one per point, from its origin to its
/// reflection, with the length and the reflection line. The reflection line is the beam
/// moved so that its midpoint is at the origin of coordinates, scaled by
/// `2 * $1 / length`, then moved by the reflection point; `$1` is the distance threshold.
pub const BEAM_INSERT_HEAD: &'static str = "INSERT INTO sensor_data.beam (patch_id, point_id, timestamp_sec, timestamp_nanosec, intensity, origin, reflection, line, length, reflection_line, ros_message_id, ros_point_id)
SELECT
    patch_id,
    point_id,
    timestamp_sec,
    timestamp_nanosec,
    intensity,
    origin,
    reflection,
    line,
    ST_3DLength(line),
    ST_Translate(
           ST_Scale(
                   ST_Translate(line, -ST_X(midpoint), -ST_Y(midpoint), -ST_Z(midpoint)),
                   (2 * $1)/length, (2 * $1)/length, (2 * $1)/length),
           ST_X(reflection), ST_Y(reflection), ST_Z(reflection)) as reflection_line,
    ros_message_id,
    ros_point_id
FROM
    (SELECT
         ST_MakeLine(origin, reflection) as line,
         ST_3DDistance(origin, reflection) as length,
         ST_LineInterpolatePoint(ST_MakeLine(origin, reflection), 0.5) AS midpoint,
         *
    FROM (SELECT id as patch_id,
           PC_Get(pc_explode(pa), 'id') as point_id,
           PC_Get(pc_explode(pa), 'timestamp_sec') as timestamp_sec,
           PC_Get(pc_explode(pa), 'timestamp_nanosec') as timestamp_nanosec,
           PC_Get(pc_explode(pa), 'intensity') as intensity,
           ST_SetSRID(st_makepoint(PC_Get(PC_Explode(pa), 'beam_origin_x'), PC_Get(PC_Explode(pa), 'beam_origin_y'), PC_Get(PC_Explode(pa), 'beam_origin_z')), ST_SRID(pc_explode(pa)::geometry)) as origin,
           PC_Explode(pa)::geometry as reflection,
           PC_Get(pc_explode(pa), 'ros_message_id') as ros_message_id,
           PC_Get(pc_explode(pa), 'ros_point_id') as ros_point_id
    FROM sensor_data.point_cloud_upload
    WHERE point_cloud_upload.id = ";

pub const BEAM_INSERT_TAIL: &'static str = ") as source_point_exploded) as pc;";

/// Records every model feature within the distance threshold `$1` of a beam's reflection
/// point (bound included), once per beam and feature.
pub const POINT_MODEL_HEAD: &'static str = "INSERT INTO sensor_data.association_point_model (beam_id, feature_id, distance)
    SELECT DISTINCT beam.id, geometry_data.feature_id, ST_3DDistance(citydb.geometry_data.geometry, beam.reflection)
    FROM
        sensor_data.beam
    JOIN
        citydb.geometry_data
    ON ST_3DDWithin(citydb.geometry_data.geometry, beam.reflection, $1)
    WHERE
        beam.patch_id = ";

pub const POINT_MODEL_TAIL: &'static str = ";";

/// Records every repaired planar polygon that a beam's reflection line intersects.
pub const BEAM_MODEL_HEAD: &'static str = "INSERT INTO sensor_data.association_beam_model (beam_id, feature_id, intersection)
SELECT DISTINCT b.id, g.feature_id, ST_3DIntersection(g.valid_geometry, b.reflection_line)
FROM
    (SELECT *
     FROM sensor_data.beam
     WHERE patch_id = ";

pub const BEAM_MODEL_TAIL: &'static str = ") as b
JOIN
        (SELECT *
         FROM sensor_data.feature_geometry_data
         WHERE valid_geometry IS NOT NULL) as g
ON ST_3DIntersects(g.valid_geometry, b.reflection_line);";

/// Lists the features that have surfaces to explode for intersection testing.
pub const LIST_SURFACE_FEATURES: &'static str = "SELECT DISTINCT feature_id FROM geometry_data
WHERE
    ST_GeometryType(geometry_data.geometry) = 'ST_PolyhedralSurface' OR
    ST_GeometryType(geometry_data.geometry) = 'ST_MultiPolygon'
ORDER BY feature_id;";

/// Explodes the surfaces of one feature into polygons and keeps, as the valid geometry,
/// the repaired ones that are planar polygons. One statement per feature, so that a
/// repair that fails costs that feature only.
pub const EXPLODE_FEATURE_HEAD: &'static str = "INSERT INTO sensor_data.feature_geometry_data (geometry_data_id, feature_id, geometry, valid_geometry)
SELECT
    id,
    feature_id,
    geometry,
    case when ST_GeometryType(valid_geometry) = 'ST_Polygon' AND ST_IsPlanar(valid_geometry) then valid_geometry else null end as valid_geometry
FROM
    (SELECT
         id,
         feature_id,
         (ST_Dump(geometry_data.geometry)).geom::geometry(PolygonZ) as geometry,
         ST_MakeValid((ST_Dump(geometry_data.geometry)).geom::geometry(PolygonZ)) as valid_geometry
    FROM geometry_data
    WHERE
        (ST_GeometryType(geometry_data.geometry) = 'ST_PolyhedralSurface' OR
        ST_GeometryType(geometry_data.geometry) = 'ST_MultiPolygon') AND
        geometry_data.feature_id = ";

pub const EXPLODE_FEATURE_TAIL: &'static str = "
    ) as t;";

/// Lists the IDs of the uploaded patches.
pub const LIST_PATCHES: &'static str = "SELECT id FROM sensor_data.point_cloud_upload ORDER BY id;";

/// Joins a patch's beams with their associations and the features' metadata, one row
/// per beam and match. The intersection angle only marks that a beam-model
/// intersection exists.
pub const DOWNLOAD_INSERT_HEAD: &'static str = "
INSERT INTO sensor_data.point_cloud_download (
    patch_id, x, y, z, point_id, timestamp_sec, timestamp_nanosec, intensity, beam_origin_x, beam_origin_y, beam_origin_z, beam_length, ros_message_id, ros_point_id, gml_id, gml_name, classname, surface_distance, intersection_angle)
SELECT
    b.patch_id,
    ST_X(b.reflection),
    ST_Y(b.reflection),
    ST_Z(b.reflection),
    b.point_id,
    b.timestamp_sec,
    b.timestamp_nanosec,
    b.intensity,
    ST_X(b.origin),
    ST_Y(b.origin),
    ST_Z(b.origin),
    b.length,
    b.ros_message_id,
    b.ros_point_id,
    cdb.objectid,
    cdb.name,
    cdb.classname,
    apm.distance,
    case when abm.intersection IS NULL then NULL else 1 end as intersection_angle
FROM sensor_data.beam as b
LEFT JOIN sensor_data.association_beam_model as abm ON b.id = abm.beam_id
LEFT JOIN sensor_data.association_point_model as apm ON b.id = apm.beam_id
LEFT JOIN
    (SELECT f.id as feature_id, f.objectid as objectid, p.val_string as name, oc.classname as classname
     FROM citydb.feature as f
     LEFT JOIN citydb.objectclass as oc ON f.objectclass_id = oc.id
     LEFT JOIN
        (SELECT *
        FROM citydb.property
        WHERE name = 'name') as p
     ON f.id = p.feature_id
     ) as cdb
ON apm.feature_id = cdb.feature_id
WHERE b.patch_id = ";

pub const DOWNLOAD_INSERT_TAIL: &'static str = ";";

/// Reads a patch's staging rows back.
pub const DOWNLOAD_SELECT_HEAD: &'static str = "SELECT id, patch_id, x, y, z, point_id, timestamp_sec, timestamp_nanosec, intensity, beam_origin_x, beam_origin_y, beam_origin_z, beam_length, ros_message_id, ros_point_id, gml_id, gml_name, classname, surface_distance, intersection_angle FROM sensor_data.point_cloud_download WHERE patch_id = ";

pub const DOWNLOAD_SELECT_TAIL: &'static str = " ORDER BY id;";

/// Deletes a patch's staging rows.
pub const DOWNLOAD_DELETE_HEAD: &'static str = "DELETE FROM sensor_data.point_cloud_download WHERE patch_id = ";

pub const DOWNLOAD_DELETE_TAIL: &'static str = ";";

/// One unit of store work.
#[derive(Debug, Clone, Copy, PartialEq, Eq, Structural)]
pub enum StoreStep {
    /// Empty the tables of a group.
    Truncate(TableGroup),
    /// List the features whose surfaces are exploded for intersection testing.
    ListSurfaceFeatures,
    /// Explode the surfaces of one feature into validated polygons.
    ExplodeFeatureGeometry(i64),
    /// List the uploaded patches.
    ListPatches,
    /// Derive the beams of a patch.
    InsertBeams(i32),
    /// Associate a patch's beams with features by distance.
    AssociatePointModel(i32),
    /// Associate a patch's beams with surfaces by intersection.
    AssociateBeamModel(i32),
    /// Fill the staging rows of a patch.
    MaterializeDownload(i32),
    /// Read the staging rows of a patch.
    LoadDownload(i32),
    /// Delete the staging rows of a patch.
    DeleteDownload(i32),
}

/// Text of a statement on one patch or feature: its head, the ID in decimal, its tail.
pub open spec fn with_id(head: &str, id: int, tail: &str) -> Seq<char> {
    head@ + decimal(id) + tail@
}

/// The statement text that performs a step.
pub open spec fn step_text(step: StoreStep) -> Seq<char> {
    match step {
        StoreStep::Truncate(g) => truncate_sql(g),
        StoreStep::ListSurfaceFeatures => LIST_SURFACE_FEATURES@,
        StoreStep::ExplodeFeatureGeometry(f) => with_id(
            EXPLODE_FEATURE_HEAD,
            f as int,
            EXPLODE_FEATURE_TAIL,
        ),
        StoreStep::ListPatches => LIST_PATCHES@,
        StoreStep::InsertBeams(p) => with_id(BEAM_INSERT_HEAD, p as int, BEAM_INSERT_TAIL),
        StoreStep::AssociatePointModel(p) => with_id(POINT_MODEL_HEAD, p as int, POINT_MODEL_TAIL),
        StoreStep::AssociateBeamModel(p) => with_id(BEAM_MODEL_HEAD, p as int, BEAM_MODEL_TAIL),
        StoreStep::MaterializeDownload(p) => with_id(
            DOWNLOAD_INSERT_HEAD,
            p as int,
            DOWNLOAD_INSERT_TAIL,
        ),
        StoreStep::LoadDownload(p) => with_id(DOWNLOAD_SELECT_HEAD, p as int, DOWNLOAD_SELECT_TAIL),
        StoreStep::DeleteDownload(p) => with_id(DOWNLOAD_DELETE_HEAD, p as int, DOWNLOAD_DELETE_TAIL),
    }
}

/// Whether a step's statement takes the distance threshold as its parameter `$1`.
pub open spec fn takes_threshold(step: StoreStep) -> bool {
    step is InsertBeams || step is AssociatePointModel
}

fn id_statement(head: &str, id: i64, tail: &str) -> (r: String)
    ensures
        r@ == with_id(head, id as int, tail),
{
    let mut r = String::from_str(head);
    append_decimal(&mut r, id);
    r.append(tail);
    r
}

impl StoreStep {
    /// The statement text that performs this step.
    pub fn sql(&self) -> (r: String)
        ensures
            r@ == step_text(*self),
    {
        match *self {
            StoreStep::Truncate(g) => truncate_statement(g),
            StoreStep::ListSurfaceFeatures => String::from_str(LIST_SURFACE_FEATURES),
            StoreStep::ExplodeFeatureGeometry(f) => id_statement(
                EXPLODE_FEATURE_HEAD,
                f,
                EXPLODE_FEATURE_TAIL,
            ),
            StoreStep::ListPatches => String::from_str(LIST_PATCHES),
            StoreStep::InsertBeams(p) => id_statement(BEAM_INSERT_HEAD, p as i64, BEAM_INSERT_TAIL),
            StoreStep::AssociatePointModel(p) => id_statement(POINT_MODEL_HEAD, p as i64, POINT_MODEL_TAIL),
            StoreStep::AssociateBeamModel(p) => id_statement(BEAM_MODEL_HEAD, p as i64, BEAM_MODEL_TAIL),
            StoreStep::MaterializeDownload(p) => id_statement(DOWNLOAD_INSERT_HEAD, p as i64, DOWNLOAD_INSERT_TAIL),
            StoreStep::LoadDownload(p) => id_statement(DOWNLOAD_SELECT_HEAD, p as i64, DOWNLOAD_SELECT_TAIL),
            StoreStep::DeleteDownload(p) => id_statement(DOWNLOAD_DELETE_HEAD, p as i64, DOWNLOAD_DELETE_TAIL),
        }
    }

    /// Whether the statement takes the distance threshold as its parameter `$1`.
    pub fn takes_threshold(&self) -> (r: bool)
        ensures
            r == takes_threshold(*self),
    {
        match *self {
            StoreStep::InsertBeams(_) | StoreStep::AssociatePointModel(_) => true,
            _ => false,
        }
    }
}

} // verus!
