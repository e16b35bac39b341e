use rtt_target::control::ControlBlock;
use rtt_target::rtt::RttChannel;
use rtt_target::{ChannelMode, DownChannel, UpChannel};

#[test]
fn up_channel_writes_and_reports_mode() {
    let mut up = UpChannel::new(RttChannel::new(String::from("log"), 16));
    assert_eq!(up.mode(), ChannelMode::NoBlockSkip);
    assert_eq!(up.free_capacity(), 15);
    assert_eq!(up.write(b"hello"), 5);
    assert_eq!(up.free_capacity(), 10);
}

#[test]
fn up_channel_mode_switch_changes_next_write() {
    let mut up = UpChannel::new(RttChannel::new(String::from("log"), 8));
    assert_eq!(up.write(b"abcd"), 4);
    assert_eq!(up.write(b"efgh"), 0, "skip mode drops what does not fit");
    up.set_mode(ChannelMode::NoBlockTrim);
    assert_eq!(up.mode(), ChannelMode::NoBlockTrim);
    assert_eq!(up.write(b"efgh"), 3, "trim mode keeps the leading bytes");
}

#[test]
fn up_channel_blocking_write_that_fits_completes() {
    let mut up = UpChannel::new(RttChannel::new(String::from("log"), 16));
    up.set_mode(ChannelMode::BlockIfFull);
    let payload = b"0123456789";
    assert!(up.free_capacity() >= payload.len());
    assert_eq!(up.write(payload), 10);
}

#[test]
fn down_channel_drains_what_the_host_queued() {
    // The engine write stands in for the external host filling the
    // down buffer; the handle then only drains it.
    let mut descriptor = RttChannel::new(String::from("input"), 16);
    assert_eq!(descriptor.write(b"command"), 7);
    let mut down = DownChannel::new(descriptor);
    let mut out = [0u8; 4];
    assert_eq!(down.read(&mut out), 4);
    assert_eq!(&out, b"comm");
    assert_eq!(down.read(&mut out), 3);
    assert_eq!(&out[..3], b"and");
    assert_eq!(down.read(&mut out), 0);
}

#[test]
fn control_block_keeps_counts_and_signature() {
    let ups = vec![
        RttChannel::new(String::from("terminal"), 16),
        RttChannel::new(String::from("defmt"), 8),
    ];
    let downs = vec![RttChannel::new(String::from("input"), 4)];
    let cb = ControlBlock::new(ups, downs);
    assert_eq!(cb.up_channel_count(), 2);
    assert_eq!(cb.down_channel_count(), 1);
    assert_eq!(cb.signature().as_slice(), b"SEGGER RTT\0\0\0\0\0\0");
}

#[test]
fn control_block_hands_descriptors_back_out() {
    let ups = vec![RttChannel::new(String::from("terminal"), 16)];
    let downs = vec![RttChannel::new(String::from("input"), 4)];
    let cb = ControlBlock::new(ups, downs);
    let (mut ups, mut downs) = cb.into_channels();
    assert_eq!(ups.len(), 1);
    assert_eq!(downs.len(), 1);
    let mut up = UpChannel::new(ups.pop().unwrap());
    assert_eq!(up.write(b"ok"), 2);
    let mut down = DownChannel::new(downs.pop().unwrap());
    let mut out = [0u8; 2];
    assert_eq!(down.read(&mut out), 0, "nothing was queued for the target");
}

#[test]
fn signature_builder_matches_pattern() {
    let sig = rtt_target::control::build_signature();
    assert_eq!(sig.len(), 16);
    assert_eq!(&sig[..10], b"SEGGER RTT");
    assert!(sig[10..].iter().all(|&b| b == 0));
}
