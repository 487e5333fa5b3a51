use retrovert_core::format::byte_size_checked;
use retrovert_core::format::bytes_per_sample;
use retrovert_core::format::get_byte_size_format;
use retrovert_core::format::AudioFormat;
use retrovert_core::format::AudioStreamFormat;
use retrovert_core::playlist::FilesDirs;
use retrovert_core::playlist::VfsEvent;
use retrovert_core::services::io_read_poll;
use retrovert_core::services::IoPoll;
use retrovert_core::playback::PlaybackSettings;
use retrovert_core::services::Args;
use retrovert_core::services::Log;
use retrovert_core::services::Metadata;
use retrovert_core::services::SettingsResult;
use retrovert_core::services::SIntResult;

fn fmt(encoding: AudioStreamFormat, channels: u32, rate: u32) -> AudioFormat {
    AudioFormat { audio_format: encoding, channel_count: channels, sample_rate: rate }
}

#[test]
fn sample_sizes_match_their_encodings() {
    assert_eq!(bytes_per_sample(AudioStreamFormat::U8), 1);
    assert_eq!(bytes_per_sample(AudioStreamFormat::S16), 2);
    assert_eq!(bytes_per_sample(AudioStreamFormat::S24), 3);
    assert_eq!(bytes_per_sample(AudioStreamFormat::S32), 4);
    assert_eq!(bytes_per_sample(AudioStreamFormat::F32), 4);
}

#[test]
fn byte_sizes_are_samples_times_channels_times_frames() {
    assert_eq!(get_byte_size_format(fmt(AudioStreamFormat::F32, 2, 48000), 512), 4096);
    assert_eq!(get_byte_size_format(fmt(AudioStreamFormat::S16, 2, 44100), 1024), 4096);
    assert_eq!(get_byte_size_format(fmt(AudioStreamFormat::S24, 1, 8000), 10), 30);
    assert_eq!(get_byte_size_format(fmt(AudioStreamFormat::U8, 4, 22050), 3), 12);
    assert_eq!(get_byte_size_format(fmt(AudioStreamFormat::S32, 2, 96000), 0), 0);
}

#[test]
fn checked_byte_size_rejects_overflow() {
    assert_eq!(byte_size_checked(fmt(AudioStreamFormat::F32, 2, 48000), 512), Some(4096));
    assert_eq!(byte_size_checked(fmt(AudioStreamFormat::F32, u32::MAX, 48000), usize::MAX), None);
    assert_eq!(byte_size_checked(fmt(AudioStreamFormat::U8, 1, 48000), usize::MAX), Some(usize::MAX));
    // zero frames never overflow, whatever the channel count
    assert_eq!(byte_size_checked(fmt(AudioStreamFormat::F32, u32::MAX, 48000), 0), Some(0));
}

#[test]
fn caller_arguments_default_to_nothing() {
    let args = Args::default();
    assert_eq!(args.data_dir, "");
    assert!(args.plugin_paths.is_empty());
    assert!(args.play.is_empty());
    assert!(!args.randomize);
    let tuning = PlaybackSettings::default();
    assert_eq!(tuning.buffer_len_ms, 0);
    assert_eq!(tuning.max_cpu_load, 0);
}

#[test]
fn log_channels_carry_their_name() {
    let log = Log::new("core");
    assert_eq!(log.instance_name, "core");
}

#[test]
fn metadata_calls_are_accepted_and_discarded() {
    let mut metadata = Metadata::new();
    let id = metadata.create_url("music/song.mod");
    assert_eq!(id, 0);
    metadata.set_tag(id, "title", "song");
    metadata.add_sample(id, "kick");
    metadata.add_instrument(id, "lead");
    assert_eq!(metadata.create_url("other"), 0);
}

#[test]
fn url_read_polling_acts_on_each_event() {
    match io_read_poll(Some(VfsEvent::ReadDone(vec![1, 2, 3]))) {
        IoPoll::Done(bytes) => assert_eq!(bytes, vec![1, 2, 3]),
        other => panic!("unexpected poll decision {:?}", other),
    }
    assert!(matches!(io_read_poll(Some(VfsEvent::Error("io".to_string()))), IoPoll::Failed));
    assert!(matches!(io_read_poll(Some(VfsEvent::NotFound)), IoPoll::Failed));
    assert!(matches!(io_read_poll(Some(VfsEvent::ReadProgress)), IoPoll::RetryAtOnce));
    let dir = FilesDirs { files: Vec::new(), dirs: Vec::new() };
    assert!(matches!(io_read_poll(Some(VfsEvent::Directory(dir))), IoPoll::SleepThenRetry));
    assert!(matches!(io_read_poll(None), IoPoll::SleepThenRetry));
}

#[test]
fn settings_values_travel_with_their_outcome() {
    let r = SIntResult { result: SettingsResult::Okay, value: 7 };
    assert_eq!(r.value, 7);
    assert!(matches!(r.result, SettingsResult::Okay));
    let missing = SIntResult { result: SettingsResult::NotFound, value: 0 };
    assert!(matches!(missing.result, SettingsResult::NotFound));
}
