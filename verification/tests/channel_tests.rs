use rtt_target::rtt::RttChannel;
use rtt_target::ChannelMode;

fn chan(size: usize) -> RttChannel {
    RttChannel::new(String::from("terminal"), size)
}

#[test]
fn round_trip_small() {
    let mut c = chan(16);
    let data = [10u8, 20, 30, 40, 50, 60, 70, 80, 90, 100];
    assert_eq!(c.write(&data), 10);
    let mut out = [0u8; 16];
    let n = c.read(&mut out);
    assert_eq!(n, 10);
    assert_eq!(&out[..10], &data);
    assert_eq!(&out[10..], &[0u8; 6]);
}

#[test]
fn round_trip_fills_usable_capacity() {
    let mut c = chan(8);
    let data = [1u8, 2, 3, 4, 5, 6, 7];
    assert_eq!(c.write(&data), 7);
    assert_eq!(c.free_space(), 0);
    let mut out = [0u8; 7];
    assert_eq!(c.read(&mut out), 7);
    assert_eq!(out, data);
}

#[test]
fn wraparound_pattern_many_cycles() {
    // A monotonically increasing byte pattern pushed across the size
    // boundary many times must read back exactly, never stale bytes.
    let mut c = chan(8);
    let mut next: u8 = 0;
    for _ in 0..200 {
        let mut data = [0u8; 5];
        for b in data.iter_mut() {
            *b = next;
            next = next.wrapping_add(1);
        }
        assert_eq!(c.write(&data), 5);
        let mut out = [0u8; 5];
        assert_eq!(c.read(&mut out), 5);
        assert_eq!(out, data);
    }
}

#[test]
fn interleaved_writes_and_reads_keep_order() {
    let mut c = chan(8);
    assert_eq!(c.write(&[1, 2, 3, 4]), 4);
    let mut out = [0u8; 2];
    assert_eq!(c.read(&mut out), 2);
    assert_eq!(out, [1, 2]);
    assert_eq!(c.write(&[5, 6, 7]), 3);
    let mut rest = [0u8; 8];
    assert_eq!(c.read(&mut rest), 5);
    assert_eq!(&rest[..5], &[3, 4, 5, 6, 7]);
}

#[test]
fn mode_semantics_no_block_skip() {
    // Capacity 16 (15 usable), 9 bytes occupied, 6 free: a 10-byte
    // payload is skipped entirely.
    let mut c = chan(16);
    let first = [1u8, 2, 3, 4, 5, 6, 7, 8, 9];
    assert_eq!(c.write(&first), 9);
    assert_eq!(c.free_space(), 6);
    let payload = [11u8, 12, 13, 14, 15, 16, 17, 18, 19, 20];
    assert_eq!(c.write(&payload), 0);
    assert_eq!(c.free_space(), 6);
    let mut out = [0u8; 16];
    assert_eq!(c.read(&mut out), 9);
    assert_eq!(&out[..9], &first);
    assert_eq!(c.read(&mut out), 0);
}

#[test]
fn mode_semantics_no_block_trim() {
    // Same setup in trim mode: exactly the 6 leading payload bytes are
    // kept, the remaining 4 are discarded.
    let mut c = chan(16);
    c.set_mode(ChannelMode::NoBlockTrim);
    let first = [1u8, 2, 3, 4, 5, 6, 7, 8, 9];
    assert_eq!(c.write(&first), 9);
    let payload = [11u8, 12, 13, 14, 15, 16, 17, 18, 19, 20];
    assert_eq!(c.write(&payload), 6);
    let mut out = [0u8; 16];
    assert_eq!(c.read(&mut out), 15);
    assert_eq!(&out[..9], &first);
    assert_eq!(&out[9..15], &payload[..6]);
}

#[test]
fn mode_semantics_block_if_full_after_drain() {
    // Same setup in blocking mode: once a reader drains 4 bytes the
    // 10-byte payload fits and is written whole, with no data loss.
    let mut c = chan(16);
    c.set_mode(ChannelMode::BlockIfFull);
    let first = [1u8, 2, 3, 4, 5, 6, 7, 8, 9];
    assert_eq!(c.write(&first), 9);
    let mut drained = [0u8; 4];
    assert_eq!(c.read(&mut drained), 4);
    assert_eq!(drained, [1, 2, 3, 4]);
    assert_eq!(c.free_space(), 10);
    let payload = [11u8, 12, 13, 14, 15, 16, 17, 18, 19, 20];
    assert_eq!(c.write(&payload), 10);
    let mut out = [0u8; 16];
    assert_eq!(c.read(&mut out), 15);
    assert_eq!(&out[..5], &first[4..]);
    assert_eq!(&out[5..15], &payload);
}

#[test]
fn short_read_is_idempotent() {
    let mut c = chan(8);
    let mut out = [9u8; 4];
    assert_eq!(c.read(&mut out), 0);
    assert_eq!(c.read(&mut out), 0);
    assert_eq!(c.read(&mut out), 0);
    assert_eq!(out, [9u8; 4], "a short read must leave the output untouched");
    // The cursors were not disturbed: a later round trip still works.
    assert_eq!(c.write(&[42, 43]), 2);
    assert_eq!(c.read(&mut out), 2);
    assert_eq!(&out[..2], &[42, 43]);
}

#[test]
fn mode_change_affects_only_later_writes() {
    let mut c = chan(16);
    assert_eq!(c.write(&[1, 2, 3, 4, 5, 6, 7, 8, 9]), 9);
    let payload = [11u8, 12, 13, 14, 15, 16, 17, 18, 19, 20];
    assert_eq!(c.write(&payload), 0, "skip mode rejects the payload");
    c.set_mode(ChannelMode::NoBlockTrim);
    assert_eq!(c.free_space(), 6, "the mode change moved no byte");
    assert_eq!(c.write(&payload), 6, "trim mode keeps what fits");
}

#[test]
fn default_mode_is_no_block_skip() {
    let c = chan(4);
    assert_eq!(c.mode(), ChannelMode::NoBlockSkip);
    assert_eq!(ChannelMode::default(), ChannelMode::NoBlockSkip);
}

#[test]
fn set_mode_round_trips_through_getter() {
    let mut c = chan(4);
    c.set_mode(ChannelMode::BlockIfFull);
    assert_eq!(c.mode(), ChannelMode::BlockIfFull);
    c.set_mode(ChannelMode::NoBlockTrim);
    assert_eq!(c.mode(), ChannelMode::NoBlockTrim);
}

#[test]
fn free_space_and_available_track_occupancy() {
    let mut c = chan(8);
    assert_eq!(c.free_space(), 7);
    assert_eq!(c.available(), 0);
    assert_eq!(c.write(&[1, 2, 3]), 3);
    assert_eq!(c.free_space(), 4);
    assert_eq!(c.available(), 3);
}

#[test]
fn single_byte_buffer_has_no_usable_space() {
    let mut c = chan(1);
    assert_eq!(c.free_space(), 0);
    assert_eq!(c.write(&[1]), 0);
    c.set_mode(ChannelMode::NoBlockTrim);
    assert_eq!(c.write(&[1]), 0);
    let mut out = [0u8; 1];
    assert_eq!(c.read(&mut out), 0);
}

#[test]
fn empty_payload_and_empty_output() {
    let mut c = chan(8);
    assert_eq!(c.write(&[]), 0);
    assert_eq!(c.write(&[5]), 1);
    let mut none: [u8; 0] = [];
    assert_eq!(c.read(&mut none), 0);
    let mut out = [0u8; 1];
    assert_eq!(c.read(&mut out), 1);
    assert_eq!(out, [5]);
}

#[test]
fn mode_flag_values_match_layout() {
    assert_eq!(ChannelMode::NoBlockSkip.flag_value(), 0);
    assert_eq!(ChannelMode::NoBlockTrim.flag_value(), 1);
    assert_eq!(ChannelMode::BlockIfFull.flag_value(), 2);
}
