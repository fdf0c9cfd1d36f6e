use patchwork_search::lazy_smp_pvs::{
    LazySMPFeature, PVSFeatures, SearchRecorder, SearchStatistics,
};
use patchwork_search::patchwork_pvs::SearchDiagnostics as FirstDiagnostics;
use patchwork_search::principal_variation_search::SearchDiagnostics as FeatureDiagnostics;
use patchwork_search::server::{
    asset_answer, asset_path, listen_address, socket_response, AssetAnswer, SocketMessage,
    SocketResponse,
};

#[test]
fn active_statistics_count_and_reset() {
    let mut statistics = SearchStatistics::<true>::default();
    statistics.increment_nodes_searched();
    statistics.increment_nodes_searched();
    statistics.increment_leaf_nodes_searched();
    statistics.increment_fail_high(true);
    statistics.increment_fail_high(false);
    statistics.increment_zero_window_search();
    statistics.increment_zero_window_search_fail();
    statistics.increment_special_patch_extensions();
    statistics.increment_special_tile_extensions();
    statistics.increment_late_move_reductions();
    statistics.increment_late_move_reduction_fails();
    statistics.increment_late_move_pruning();
    statistics.increment_aspiration_window_fail_low();
    statistics.increment_aspiration_window_fail_high();
    assert_eq!(statistics.nodes_searched, 2);
    assert_eq!(statistics.leaf_nodes_searched, 1);
    assert_eq!(statistics.fail_high, 2);
    assert_eq!(statistics.fail_high_first, 1);
    assert_eq!(statistics.zero_window_search, 1);
    assert_eq!(statistics.zero_window_search_fail, 1);
    assert_eq!(statistics.special_patch_extensions, 1);
    assert_eq!(statistics.special_tile_extensions, 1);
    assert_eq!(statistics.late_move_reductions, 1);
    assert_eq!(statistics.late_move_reduction_fails, 1);
    assert_eq!(statistics.late_move_pruning, 1);
    assert_eq!(statistics.aspiration_window_fail_low, 1);
    assert_eq!(statistics.aspiration_window_fail_high, 1);

    statistics.reset_iterative_deepening_iteration();
    assert_eq!(statistics.nodes_searched_previous_iteration, 2);
    assert_eq!(statistics.nodes_searched, 0);
    assert_eq!(statistics.fail_high, 0);
    assert_eq!(statistics.late_move_pruning, 0);

    statistics.increment_nodes_searched();
    statistics.reset();
    assert_eq!(statistics.nodes_searched_previous_iteration, 0);
    assert_eq!(statistics.nodes_searched, 0);
}

#[test]
fn inactive_statistics_count_nothing() {
    let mut statistics = SearchStatistics::<false>::default();
    statistics.increment_nodes_searched();
    statistics.increment_fail_high(true);
    statistics.increment_late_move_pruning();
    assert_eq!(statistics.nodes_searched, 0);
    assert_eq!(statistics.fail_high, 0);
    assert_eq!(statistics.late_move_pruning, 0);
}

#[test]
fn first_player_diagnostics() {
    let mut diagnostics = FirstDiagnostics::default();
    diagnostics.increment_nodes_searched();
    diagnostics.increment_fail_high(true);
    diagnostics.increment_zero_window_search_fail();
    diagnostics.increment_special_patch_extensions();
    diagnostics.increment_aspiration_window_fail_low();
    diagnostics.increment_aspiration_window_fail_high();
    assert_eq!(diagnostics.nodes_searched, 1);
    assert_eq!(diagnostics.fail_high, 1);
    assert_eq!(diagnostics.fail_high_first, 1);
    assert_eq!(diagnostics.zero_window_search_fail, 1);
    assert_eq!(diagnostics.special_patch_extensions, 1);
    // only the node count and the aspiration window counters start over
    diagnostics.reset_iterative_deepening_iteration();
    assert_eq!(diagnostics.nodes_searched, 0);
    assert_eq!(diagnostics.aspiration_window_fail_low, 0);
    assert_eq!(diagnostics.aspiration_window_fail_high, 0);
    assert_eq!(diagnostics.fail_high, 1);
    assert_eq!(diagnostics.special_patch_extensions, 1);
}

#[test]
fn feature_player_diagnostics() {
    let mut diagnostics = FeatureDiagnostics::default();
    diagnostics.increment_nodes_searched();
    diagnostics.increment_leaf_nodes_searched();
    diagnostics.increment_zero_window_search();
    diagnostics.increment_special_tile_extensions();
    diagnostics.increment_late_move_reductions();
    diagnostics.increment_late_move_pruning();
    assert_eq!(diagnostics.leaf_nodes_searched, 1);
    assert_eq!(diagnostics.zero_window_search, 1);
    assert_eq!(diagnostics.special_tile_extensions, 1);
    assert_eq!(diagnostics.late_move_reductions, 1);
    assert_eq!(diagnostics.late_move_pruning, 1);
    diagnostics.reset_iterative_deepening_iteration();
    assert_eq!(diagnostics.nodes_searched_previous_iteration, 1);
    assert_eq!(diagnostics.leaf_nodes_searched, 0);
    diagnostics.reset();
    assert_eq!(diagnostics.nodes_searched_previous_iteration, 0);
}

#[test]
fn recorder_builds_the_search_tree() {
    let mut recorder = SearchRecorder::<&str, true>::new();
    recorder.push_state("root");
    recorder.push_state("a");
    recorder.pop_state_with_value(3, -5, 5, "Evaluation");
    recorder.push_state("b");
    recorder.push_state("b1");
    recorder.pop_state_with_value(1, -5, 5, "Evaluation");
    recorder.pop_state_with_value(-1, -5, 5, "Full Search");
    recorder.pop_state_with_value(3, -5, 5, "Full Search");
    assert_eq!(recorder.len(), 4);
    assert_eq!(recorder.children(0), vec![1, 2]);
    assert_eq!(recorder.children(2), vec![3]);
    assert_eq!(recorder.children(1), Vec::<usize>::new());
    assert_eq!(*recorder.state(3), "b1");
    let record = recorder.record(2).as_ref().unwrap();
    assert_eq!(record.value, -1);
    assert_eq!(record.description, "Full Search");
    // a new search starts a new tree
    recorder.push_state("next");
    assert_eq!(recorder.len(), 1);
    assert!(recorder.record(0).is_none());
    assert_eq!(recorder.next_file_index(), 1);
    assert_eq!(recorder.next_file_index(), 2);
}

#[test]
fn disabled_recorder_records_nothing() {
    let mut recorder = SearchRecorder::<u8, false>::new();
    recorder.push_state(1);
    recorder.pop_state_with_value(0, 0, 0, "ignored");
    assert_eq!(recorder.len(), 0);
}

#[test]
fn feature_labels() {
    let features = PVSFeatures::default_with(LazySMPFeature::No);
    assert_eq!(features.player_variant(false).feature_labels(), vec!["AW", "TT(S)", "LMR", "LMP", "SE"]);
    let plain = PVSFeatures {
        aspiration_window: false,
        late_move_pruning: false,
        transposition_table: patchwork_search::lazy_smp_pvs::TranspositionTableFeature::Disabled,
        ..features
    };
    assert_eq!(plain.player_variant(false).feature_labels(), vec!["LMR", "SE"]);
}

#[test]
fn web_answers() {
    assert_eq!(asset_path("/assets/app.js"), "assets/app.js");
    assert_eq!(asset_path("///x"), "x");
    assert_eq!(asset_path(""), "");
    match asset_answer("style.css", true, true) {
        AssetAnswer::File { path, content_type } => {
            assert_eq!(path, "style.css");
            assert_eq!(content_type, "text/css");
        }
        AssetAnswer::NotFound => panic!("the file exists"),
    }
    match asset_answer("missing.png", false, true) {
        AssetAnswer::File { path, content_type } => {
            assert_eq!(path, "index.html");
            assert_eq!(content_type, "text/html");
        }
        AssetAnswer::NotFound => panic!("the index exists"),
    }
    assert_eq!(asset_answer("missing.png", false, false), AssetAnswer::NotFound);
    match asset_answer("data.unknownext", true, true) {
        AssetAnswer::File { content_type, .. } => assert_eq!(content_type, "application/octet-stream"),
        AssetAnswer::NotFound => panic!("the file exists"),
    }
}

#[test]
fn server_address_and_socket() {
    assert_eq!(listen_address(None, false), ([127, 0, 0, 1], 3000));
    assert_eq!(listen_address(Some(8080), true), ([0, 0, 0, 0], 8080));
    assert_eq!(socket_response(SocketMessage::Text), SocketResponse::Reply("Hello!".to_string()));
    assert_eq!(socket_response(SocketMessage::Ping), SocketResponse::Ignore);
    assert_eq!(socket_response(SocketMessage::Close), SocketResponse::Stop);
}
