use sensor_data_analyzer::lifecycle::{groups_cleared_by, tables_of, truncate_statement, Operation, TableGroup};
use sensor_data_analyzer::plan::{patch_association_steps, patch_download_steps, run_prelude};
use sensor_data_analyzer::schema::{Patches, Table};
use sensor_data_analyzer::statements::{
    StoreStep, BEAM_MODEL_HEAD, BEAM_MODEL_TAIL, EXPLODE_FEATURE_HEAD, LIST_SURFACE_FEATURES,
};

#[test]
fn truncation_names_every_table_of_the_group() {
    assert_eq!(
        truncate_statement(TableGroup::Association),
        "TRUNCATE TABLE sensor_data.feature_geometry_data,sensor_data.association_beam_model,sensor_data.association_point_model,sensor_data.beam CASCADE;"
    );
    assert_eq!(
        truncate_statement(TableGroup::Download),
        "TRUNCATE TABLE sensor_data.point_cloud_download CASCADE;"
    );
    assert_eq!(
        truncate_statement(TableGroup::Upload),
        "TRUNCATE TABLE sensor_data.point_cloud_upload CASCADE;"
    );
    assert_eq!(tables_of(TableGroup::Upload), vec![Table::PointCloudUpload]);
    assert_eq!(Table::Beam.name(), "sensor_data.beam");
}

#[test]
fn clear_twice_issues_the_same_truncations() {
    let first: Vec<String> = groups_cleared_by(Operation::Clear).into_iter().map(truncate_statement).collect();
    let second: Vec<String> = groups_cleared_by(Operation::Clear).into_iter().map(truncate_statement).collect();
    assert_eq!(first.len(), 3);
    assert_eq!(first, second);
    assert_eq!(
        groups_cleared_by(Operation::Clear),
        vec![TableGroup::Download, TableGroup::Association, TableGroup::Upload]
    );
    assert_eq!(groups_cleared_by(Operation::Associate), vec![TableGroup::Association]);
    assert_eq!(groups_cleared_by(Operation::Download), vec![TableGroup::Download]);
}

#[test]
fn per_patch_statements_name_the_patch() {
    assert_eq!(
        StoreStep::DeleteDownload(42).sql(),
        "DELETE FROM sensor_data.point_cloud_download WHERE patch_id = 42;"
    );
    assert_eq!(
        StoreStep::LoadDownload(-7).sql(),
        "SELECT id, patch_id, x, y, z, point_id, timestamp_sec, timestamp_nanosec, intensity, beam_origin_x, beam_origin_y, beam_origin_z, beam_length, ros_message_id, ros_point_id, gml_id, gml_name, classname, surface_distance, intersection_angle FROM sensor_data.point_cloud_download WHERE patch_id = -7 ORDER BY id;"
    );
    assert_eq!(
        StoreStep::AssociateBeamModel(i32::MIN).sql(),
        format!("{}-2147483648{}", BEAM_MODEL_HEAD, BEAM_MODEL_TAIL)
    );
    let beams = StoreStep::InsertBeams(1300).sql();
    assert!(beams.contains("WHERE point_cloud_upload.id = 1300) as source_point_exploded) as pc;"));
    assert!(beams.contains("(2 * $1)/length"));
    let near = StoreStep::AssociatePointModel(0).sql();
    assert!(near.contains("ST_3DDWithin(citydb.geometry_data.geometry, beam.reflection, $1)"));
    assert!(near.ends_with("beam.patch_id = 0;"));
    assert_eq!(
        StoreStep::Truncate(TableGroup::Download).sql(),
        truncate_statement(TableGroup::Download)
    );
}

#[test]
fn surfaces_are_exploded_one_feature_at_a_time() {
    let s = StoreStep::ExplodeFeatureGeometry(9_000_000_000).sql();
    assert!(s.starts_with(EXPLODE_FEATURE_HEAD));
    assert!(s.ends_with("geometry_data.feature_id = 9000000000\n    ) as t;"));
    assert_eq!(StoreStep::ListSurfaceFeatures.sql(), LIST_SURFACE_FEATURES);
    assert!(!StoreStep::ExplodeFeatureGeometry(1).takes_threshold());
}

#[test]
fn only_distance_statements_take_the_threshold() {
    assert!(StoreStep::InsertBeams(1).takes_threshold());
    assert!(StoreStep::AssociatePointModel(1).takes_threshold());
    assert!(!StoreStep::AssociateBeamModel(1).takes_threshold());
    assert!(!StoreStep::MaterializeDownload(1).takes_threshold());
    assert!(!StoreStep::ListPatches.takes_threshold());
}

#[test]
fn runs_clear_before_they_fill() {
    assert_eq!(
        run_prelude(Operation::Associate, true),
        vec![
            StoreStep::Truncate(TableGroup::Association),
            StoreStep::ListSurfaceFeatures,
            StoreStep::ListPatches,
        ]
    );
    assert_eq!(
        run_prelude(Operation::Associate, false),
        vec![StoreStep::Truncate(TableGroup::Association), StoreStep::ListPatches]
    );
    assert_eq!(
        run_prelude(Operation::Download, true),
        vec![StoreStep::Truncate(TableGroup::Download), StoreStep::ListPatches]
    );
    assert_eq!(
        run_prelude(Operation::Clear, true),
        vec![
            StoreStep::Truncate(TableGroup::Download),
            StoreStep::Truncate(TableGroup::Association),
            StoreStep::Truncate(TableGroup::Upload),
        ]
    );
}

#[test]
fn per_patch_plans() {
    assert_eq!(
        patch_association_steps(5, true),
        vec![
            StoreStep::InsertBeams(5),
            StoreStep::AssociatePointModel(5),
            StoreStep::AssociateBeamModel(5),
        ]
    );
    assert_eq!(
        patch_association_steps(5, false),
        vec![StoreStep::InsertBeams(5), StoreStep::AssociatePointModel(5)]
    );
    assert_eq!(
        patch_download_steps(9, false),
        vec![
            StoreStep::MaterializeDownload(9),
            StoreStep::LoadDownload(9),
            StoreStep::DeleteDownload(9),
        ]
    );
    assert_eq!(
        patch_download_steps(9, true),
        vec![StoreStep::MaterializeDownload(9), StoreStep::LoadDownload(9)]
    );
    assert_eq!(Patches { id: 3 }, Patches { id: 3 });
}
