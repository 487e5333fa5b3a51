//! The plugin registry.
//!
//! Loaded modules arrive here as descriptors: which of the three typed
//! entry points the module exports, and which operations its descriptor
//! table filled in. The registry validates the required operations and
//! keeps one ordered list per kind — discovery order, as the directory
//! walk found them. A rejected module never aborts the walk: the caller
//! logs and moves to the next file.

use crate::abi::ProbeResult;
use vstd::prelude::*;
use vstd::string::StrSliceExecFns;

verus! {

/// The three typed entry points a module may export.
#[derive(Clone, Copy, Debug, PartialEq, Eq, Structural)]
pub enum PluginKind {
    Decoder,
    Output,
    Resampler,
}

/// Which operations a decoder module's descriptor table filled in.
#[derive(Clone, Copy, Debug, PartialEq, Eq, Structural)]
pub struct DecoderOps {
    pub has_probe_can_play: bool,
    pub has_supported_extensions: bool,
    pub has_create: bool,
    pub has_destroy: bool,
    pub has_open: bool,
    pub has_close: bool,
    pub has_read_data: bool,
    pub has_seek: bool,
    pub has_metadata: bool,
    pub has_static_init: bool,
    pub has_settings_updated: bool,
}

/// Which operations an output module's descriptor table filled in.
#[derive(Clone, Copy, Debug, PartialEq, Eq, Structural)]
pub struct OutputOps {
    pub has_create: bool,
    pub has_destroy: bool,
    pub has_output_targets_info: bool,
    pub has_start: bool,
    pub has_stop: bool,
    pub has_static_init: bool,
}

/// Which operations a resampler module's descriptor table filled in.
#[derive(Clone, Copy, Debug, PartialEq, Eq, Structural)]
pub struct ResampleOps {
    pub has_create: bool,
    pub has_destroy: bool,
    pub has_set_config: bool,
    pub has_convert: bool,
    pub has_get_expected_output_frame_count: bool,
    pub has_get_required_input_frame_count: bool,
    pub has_static_init: bool,
    pub has_settings_updated: bool,
}

/// The entry point a loaded module exports, with its operation table.
#[derive(Clone, Copy, Debug, PartialEq, Eq, Structural)]
pub enum PluginEntry {
    Decoder(DecoderOps),
    Output(OutputOps),
    Resampler(ResampleOps),
}

/// A loaded module as the registry sees it.
pub struct PluginDescriptor {
    /// Path the module was loaded from.
    pub plugin_path: String,
    /// Its entry point, or `None` when the module exports none of the
    /// three.
    pub entry: Option<PluginEntry>,
}

/// Why a module was rejected.
#[derive(Clone, Copy, Debug, PartialEq, Eq, Structural)]
pub enum PluginError {
    /// The module exports none of the three entry points.
    NoEntryPoint,
    /// A required operation of its kind is missing.
    InvalidPlugin,
}

/// A registered decoder plugin.
pub struct PlaybackPlugin {
    pub plugin_path: String,
    pub ops: DecoderOps,
}

/// A registered output plugin.
pub struct OutputPlugin {
    pub plugin_path: String,
    pub ops: OutputOps,
}

/// A registered resampler plugin.
pub struct ResamplePlugin {
    pub plugin_path: String,
    pub ops: ResampleOps,
}

/// A decoder must probe, list its extensions, and manage instances that
/// open, close and produce frames.
pub open spec fn decoder_ops_valid(ops: DecoderOps) -> bool {
    &&& ops.has_probe_can_play
    &&& ops.has_supported_extensions
    &&& ops.has_create
    &&& ops.has_destroy
    &&& ops.has_open
    &&& ops.has_close
    &&& ops.has_read_data
}

/// An output must manage instances, report its targets, and start and
/// stop its callback.
pub open spec fn output_ops_valid(ops: OutputOps) -> bool {
    &&& ops.has_create
    &&& ops.has_destroy
    &&& ops.has_output_targets_info
    &&& ops.has_start
    &&& ops.has_stop
}

/// A resampler must manage instances, take a configuration, convert, and
/// answer both frame-count queries.
pub open spec fn resample_ops_valid(ops: ResampleOps) -> bool {
    &&& ops.has_create
    &&& ops.has_destroy
    &&& ops.has_set_config
    &&& ops.has_convert
    &&& ops.has_get_expected_output_frame_count
    &&& ops.has_get_required_input_frame_count
}

/// The registry: one ordered list per plugin kind.
pub struct Plugins {
    pub decoder_plugins: Vec<PlaybackPlugin>,
    pub output_plugins: Vec<OutputPlugin>,
    pub resample_plugins: Vec<ResamplePlugin>,
}

impl Plugins {
    /// An empty registry.
    pub fn new() -> (r: Plugins)
        ensures
            r.decoder_plugins@ == Seq::<PlaybackPlugin>::empty(),
            r.output_plugins@ == Seq::<OutputPlugin>::empty(),
            r.resample_plugins@ == Seq::<ResamplePlugin>::empty(),
    {
        Plugins {
            decoder_plugins: Vec::new(),
            output_plugins: Vec::new(),
            resample_plugins: Vec::new(),
        }
    }

    /// Bind one loaded module: validate the operations its entry point
    /// requires and append it to the list of its kind. A rejection
    /// changes nothing, so the modules around it still load.
    pub fn add_plugin_lib(&mut self, desc: PluginDescriptor) -> (r: Result<PluginKind, PluginError>)
        ensures
            desc.entry is None ==> r == Err::<PluginKind, PluginError>(PluginError::NoEntryPoint)
                && unchanged_lists(*old(self), *final(self)),
            desc.entry matches Some(PluginEntry::Decoder(ops)) ==> (decoder_ops_valid(ops) ==> r
                == Ok::<PluginKind, PluginError>(PluginKind::Decoder) && final(self).decoder_plugins@ == old(self).decoder_plugins@.push(
                PlaybackPlugin { plugin_path: desc.plugin_path, ops },
            ) && final(self).output_plugins@ == old(self).output_plugins@ && final(self).resample_plugins@ == old(self).resample_plugins@) && (!decoder_ops_valid(ops) ==> r
                == Err::<PluginKind, PluginError>(PluginError::InvalidPlugin) && unchanged_lists(
                *old(self),
                *final(self),
            )),
            desc.entry matches Some(PluginEntry::Output(ops)) ==> (output_ops_valid(ops) ==> r
                == Ok::<PluginKind, PluginError>(PluginKind::Output) && final(self).output_plugins@ == old(self).output_plugins@.push(
                OutputPlugin { plugin_path: desc.plugin_path, ops },
            ) && final(self).decoder_plugins@ == old(self).decoder_plugins@ && final(self).resample_plugins@ == old(self).resample_plugins@) && (!output_ops_valid(ops) ==> r
                == Err::<PluginKind, PluginError>(PluginError::InvalidPlugin) && unchanged_lists(
                *old(self),
                *final(self),
            )),
            desc.entry matches Some(PluginEntry::Resampler(ops)) ==> (resample_ops_valid(ops) ==> r
                == Ok::<PluginKind, PluginError>(PluginKind::Resampler) && final(self).resample_plugins@ == old(self).resample_plugins@.push(
                ResamplePlugin { plugin_path: desc.plugin_path, ops },
            ) && final(self).decoder_plugins@ == old(self).decoder_plugins@ && final(self).output_plugins@ == old(self).output_plugins@) && (!resample_ops_valid(ops) ==> r
                == Err::<PluginKind, PluginError>(PluginError::InvalidPlugin) && unchanged_lists(
                *old(self),
                *final(self),
            )),
    {
        match desc.entry {
            None => Err(PluginError::NoEntryPoint),
            Some(PluginEntry::Decoder(ops)) => {
                if ops.has_probe_can_play && ops.has_supported_extensions && ops.has_create
                    && ops.has_destroy && ops.has_open && ops.has_close && ops.has_read_data {
                    self.decoder_plugins.push(
                        PlaybackPlugin { plugin_path: desc.plugin_path, ops },
                    );
                    Ok(PluginKind::Decoder)
                } else {
                    Err(PluginError::InvalidPlugin)
                }
            },
            Some(PluginEntry::Output(ops)) => {
                if ops.has_create && ops.has_destroy && ops.has_output_targets_info
                    && ops.has_start && ops.has_stop {
                    self.output_plugins.push(OutputPlugin { plugin_path: desc.plugin_path, ops });
                    Ok(PluginKind::Output)
                } else {
                    Err(PluginError::InvalidPlugin)
                }
            },
            Some(PluginEntry::Resampler(ops)) => {
                if ops.has_create && ops.has_destroy && ops.has_set_config && ops.has_convert
                    && ops.has_get_expected_output_frame_count
                    && ops.has_get_required_input_frame_count {
                    self.resample_plugins.push(
                        ResamplePlugin { plugin_path: desc.plugin_path, ops },
                    );
                    Ok(PluginKind::Resampler)
                } else {
                    Err(PluginError::InvalidPlugin)
                }
            },
        }
    }
}

/// Whether two registries hold the same lists.
pub open spec fn unchanged_lists(a: Plugins, b: Plugins) -> bool {
    &&& a.decoder_plugins@ == b.decoder_plugins@
    &&& a.output_plugins@ == b.output_plugins@
    &&& a.resample_plugins@ == b.resample_plugins@
}

/// Whether a file name names a plugin module: its last path component
/// carries the `rvp` extension.
pub open spec fn spec_is_plugin_file(name: Seq<char>) -> bool {
    &&& name.len() >= 5
    &&& name.subrange(name.len() - 4, name.len() as int) == seq!['.', 'r', 'v', 'p']
    &&& name[name.len() - 5] != '/'
}

/// Whether the directory walk should try to load this file as a plugin.
pub fn check_file_type(name: &str) -> (r: bool)
    ensures
        r == spec_is_plugin_file(name@),
{
    let n = name.unicode_len();
    if n < 5 {
        return false;
    }
    let dot = name.get_char(n - 4);
    let c_r = name.get_char(n - 3);
    let c_v = name.get_char(n - 2);
    let c_p = name.get_char(n - 1);
    let before = name.get_char(n - 5);
    let r = dot == '.' && c_r == 'r' && c_v == 'v' && c_p == 'p' && before != '/';
    proof {
        if r {
            assert(name@.subrange(name@.len() - 4, name@.len() as int) =~= seq![
                '.',
                'r',
                'v',
                'p',
            ]);
        } else {
            if name@.subrange(name@.len() - 4, name@.len() as int) == seq!['.', 'r', 'v', 'p'] {
                assert(name@[name@.len() - 4] == '.');
                assert(name@[name@.len() - 3] == 'r');
                assert(name@[name@.len() - 2] == 'v');
                assert(name@[name@.len() - 1] == 'p');
            }
        }
    }
    r
}

/// The decoder the playlist settles on for a piece of content: the first
/// of the registry list whose probe says `Supported`. `Unsure` and
/// `Unsupported` do not match and the search moves on.
pub fn select_decoder(results: &Vec<ProbeResult>) -> (r: Option<usize>)
    ensures
        r matches Some(i) ==> i < results@.len() && results@[i as int] is Supported && (forall|
            j: int,
        |
            0 <= j < i ==> !(results@[j] is Supported)),
        r is None ==> forall|j: int| 0 <= j < results@.len() ==> !(results@[j] is Supported),
{
    let mut i: usize = 0;
    while i < results.len()
        invariant
            i <= results@.len(),
            forall|j: int| 0 <= j < i ==> !(results@[j] is Supported),
        decreases results@.len() - i,
    {
        let is_supported = match results[i] {
            ProbeResult::Supported => true,
            _ => false,
        };
        if is_supported {
            return Some(i);
        }
        i = i + 1;
    }
    None
}

} // verus!
