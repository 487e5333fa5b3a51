use retrovert_core::abi::probe_accepted;
use retrovert_core::abi::ProbeResult;
use retrovert_core::registry::check_file_type;
use retrovert_core::registry::select_decoder;
use retrovert_core::registry::DecoderOps;
use retrovert_core::registry::OutputOps;
use retrovert_core::registry::PluginDescriptor;
use retrovert_core::registry::PluginEntry;
use retrovert_core::registry::PluginError;
use retrovert_core::registry::PluginKind;
use retrovert_core::registry::Plugins;
use retrovert_core::registry::ResampleOps;

fn full_decoder_ops() -> DecoderOps {
    DecoderOps {
        has_probe_can_play: true,
        has_supported_extensions: true,
        has_create: true,
        has_destroy: true,
        has_open: true,
        has_close: true,
        has_read_data: true,
        has_seek: false,
        has_metadata: false,
        has_static_init: false,
        has_settings_updated: false,
    }
}

fn decoder(path: &str, ops: DecoderOps) -> PluginDescriptor {
    PluginDescriptor { plugin_path: path.to_string(), entry: Some(PluginEntry::Decoder(ops)) }
}

#[test]
fn plugin_without_create_is_rejected_alone() {
    let mut plugins = Plugins::new();
    let mut broken_ops = full_decoder_ops();
    broken_ops.has_create = false;
    let broken = decoder("plugins/broken.rvp", broken_ops);
    let fine = decoder("plugins/fine.rvp", full_decoder_ops());
    assert_eq!(plugins.add_plugin_lib(broken), Err(PluginError::InvalidPlugin));
    assert_eq!(plugins.add_plugin_lib(fine), Ok(PluginKind::Decoder));
    // the rejected module never aborts the scan: the other one is bound
    assert_eq!(plugins.decoder_plugins.len(), 1);
    assert_eq!(plugins.decoder_plugins[0].plugin_path, "plugins/fine.rvp");
}

#[test]
fn every_required_decoder_op_is_checked() {
    let required = [
        "probe_can_play",
        "supported_extensions",
        "create",
        "destroy",
        "open",
        "close",
        "read_data",
    ];
    for missing in required {
        let mut ops = full_decoder_ops();
        match missing {
            "probe_can_play" => ops.has_probe_can_play = false,
            "supported_extensions" => ops.has_supported_extensions = false,
            "create" => ops.has_create = false,
            "destroy" => ops.has_destroy = false,
            "open" => ops.has_open = false,
            "close" => ops.has_close = false,
            _ => ops.has_read_data = false,
        }
        let mut plugins = Plugins::new();
        let r = plugins.add_plugin_lib(decoder("p.rvp", ops));
        assert_eq!(r, Err(PluginError::InvalidPlugin));
        assert_eq!(plugins.decoder_plugins.len(), 0);
    }
}

#[test]
fn optional_decoder_ops_may_be_absent() {
    let mut plugins = Plugins::new();
    // seek, metadata, static_init and settings_updated are optional
    let r = plugins.add_plugin_lib(decoder("p.rvp", full_decoder_ops()));
    assert_eq!(r, Ok(PluginKind::Decoder));
}

#[test]
fn module_without_entry_point_is_rejected() {
    let mut plugins = Plugins::new();
    let desc = PluginDescriptor { plugin_path: "not_a_plugin.rvp".to_string(), entry: None };
    assert_eq!(plugins.add_plugin_lib(desc), Err(PluginError::NoEntryPoint));
}

#[test]
fn output_and_resampler_modules_bind_under_their_kind() {
    let mut plugins = Plugins::new();
    let out_ops = OutputOps {
        has_create: true,
        has_destroy: true,
        has_output_targets_info: true,
        has_start: true,
        has_stop: true,
        has_static_init: false,
    };
    let out = PluginDescriptor {
        plugin_path: "out.rvp".to_string(),
        entry: Some(PluginEntry::Output(out_ops)),
    };
    assert_eq!(plugins.add_plugin_lib(out), Ok(PluginKind::Output));
    let res_ops = ResampleOps {
        has_create: true,
        has_destroy: true,
        has_set_config: true,
        has_convert: true,
        has_get_expected_output_frame_count: true,
        has_get_required_input_frame_count: true,
        has_static_init: false,
        has_settings_updated: false,
    };
    let res = PluginDescriptor {
        plugin_path: "res.rvp".to_string(),
        entry: Some(PluginEntry::Resampler(res_ops)),
    };
    assert_eq!(plugins.add_plugin_lib(res), Ok(PluginKind::Resampler));
    assert_eq!(plugins.output_plugins.len(), 1);
    assert_eq!(plugins.resample_plugins.len(), 1);
    assert_eq!(plugins.decoder_plugins.len(), 0);
    // an output module missing stop is invalid
    let mut broken = out_ops;
    broken.has_stop = false;
    let out = PluginDescriptor {
        plugin_path: "out2.rvp".to_string(),
        entry: Some(PluginEntry::Output(broken)),
    };
    assert_eq!(plugins.add_plugin_lib(out), Err(PluginError::InvalidPlugin));
    // a resampler module missing convert is invalid
    let mut broken = res_ops;
    broken.has_convert = false;
    let res = PluginDescriptor {
        plugin_path: "res2.rvp".to_string(),
        entry: Some(PluginEntry::Resampler(broken)),
    };
    assert_eq!(plugins.add_plugin_lib(res), Err(PluginError::InvalidPlugin));
}

#[test]
fn discovery_order_is_kept() {
    let mut plugins = Plugins::new();
    let _ = plugins.add_plugin_lib(decoder("a.rvp", full_decoder_ops()));
    let _ = plugins.add_plugin_lib(decoder("b.rvp", full_decoder_ops()));
    let _ = plugins.add_plugin_lib(decoder("c.rvp", full_decoder_ops()));
    let paths: Vec<&str> =
        plugins.decoder_plugins.iter().map(|p| p.plugin_path.as_str()).collect();
    assert_eq!(paths, vec!["a.rvp", "b.rvp", "c.rvp"]);
}

#[test]
fn only_rvp_files_are_tried() {
    assert!(check_file_type("song.rvp"));
    assert!(check_file_type("plugins/mod-player.rvp"));
    assert!(check_file_type("a..rvp"));
    assert!(!check_file_type("song.rvpx"));
    assert!(!check_file_type("rvp"));
    assert!(!check_file_type(".rvp"));
    assert!(!check_file_type("plugins/.rvp"));
    assert!(!check_file_type("plugins/module.so"));
    assert!(!check_file_type(""));
}

#[test]
fn first_supported_probe_wins() {
    let results = vec![
        ProbeResult::Unsure,
        ProbeResult::Unsupported,
        ProbeResult::Supported,
        ProbeResult::Supported,
    ];
    assert_eq!(select_decoder(&results), Some(2));
    let none = vec![ProbeResult::Unsure, ProbeResult::Unsupported];
    assert_eq!(select_decoder(&none), None);
    assert_eq!(select_decoder(&Vec::new()), None);
}

#[test]
fn only_a_definitive_probe_counts() {
    assert!(probe_accepted(ProbeResult::Supported));
    assert!(!probe_accepted(ProbeResult::Unsupported));
    assert!(!probe_accepted(ProbeResult::Unsure));
}
