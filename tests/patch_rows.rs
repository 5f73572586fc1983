use sensor_data_analyzer::retrieval::{derive_columns, DownloadRow, PointColumns};
use sensor_data_analyzer::upload::{patch_insert_statement, DimensionCompression, Endianess, PointRecord};

fn record(id: u64, x: &str) -> PointRecord {
    PointRecord {
        x: x.to_string(),
        y: "2.5".to_string(),
        z: "-3".to_string(),
        id,
        timestamp_sec: -12,
        timestamp_nanosec: 900,
        intensity: "0.25".to_string(),
        beam_origin_x: "0".to_string(),
        beam_origin_y: "0".to_string(),
        beam_origin_z: "1.75".to_string(),
        message_id: 4,
        point_id_in_message: 17,
    }
}

#[test]
fn patch_statement_lists_values_in_schema_order() {
    let s = patch_insert_statement(&vec![record(0, "1"), record(18_446_744_073_709_551_615, "7.125")]);
    assert_eq!(
        s,
        "INSERT INTO sensor_data.point_cloud_upload (pa)\n    SELECT PC_MakePatch(1, ARRAY[1, 2.5, -3, 0, -12, 900, 0.25, 0, 0, 1.75, 4, 17, 7.125, 2.5, -3, 18446744073709551615, -12, 900, 0.25, 0, 0, 1.75, 4, 17]);"
    );
}

#[test]
fn patch_statement_of_no_points() {
    assert_eq!(
        patch_insert_statement(&vec![]),
        "INSERT INTO sensor_data.point_cloud_upload (pa)\n    SELECT PC_MakePatch(1, ARRAY[]);"
    );
}

fn row(point_id: i32, feature: Option<&str>, intersects: bool) -> DownloadRow {
    DownloadRow {
        patch_id: 1,
        point_id,
        timestamp_sec: 1_600_000_000,
        timestamp_nanosec: 5,
        message_id: 2,
        point_id_in_message: 3,
        feature_external_id: feature.map(|s| s.to_string()),
        feature_name: feature.map(|s| format!("name of {s}")),
        feature_class: None,
        intersects,
    }
}

#[test]
fn columns_rebuilt_with_empty_text_for_missing_features() {
    let c = derive_columns(&vec![row(10, Some("GML_1"), true), row(11, None, false)]);
    assert_eq!(
        c,
        PointColumns {
            ids: vec![10, 11],
            timestamp_sec: vec![1_600_000_000, 1_600_000_000],
            timestamp_nanosec: vec![5, 5],
            message_ids: vec![2, 2],
            point_ids_in_message: vec![3, 3],
            feature_external_ids: vec!["GML_1".to_string(), String::new()],
            feature_names: vec!["name of GML_1".to_string(), String::new()],
            feature_classes: vec![String::new(), String::new()],
            intersection_marked: vec![true, false],
        }
    );
}

#[test]
fn no_rows_give_empty_columns() {
    let c = derive_columns(&vec![]);
    assert!(c.ids.is_empty() && c.feature_external_ids.is_empty());
}

#[test]
fn patch_format_codes() {
    assert_eq!(DimensionCompression::NoCompression.code(), 0);
    assert_eq!(DimensionCompression::RunLengthCompression.code(), 1);
    assert_eq!(DimensionCompression::SignificantBitsRemoval.code(), 2);
    assert_eq!(DimensionCompression::Deflate.code(), 3);
    assert_eq!(Endianess::Xdr.code(), 0);
    assert_eq!(Endianess::Ndr.code(), 1);
}
