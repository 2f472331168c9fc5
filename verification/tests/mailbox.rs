use sifli_hal::mailbox::{
    decode_exr, enable_word, trigger_word, LockCore, LockCoreExt, Mailbox1, Mailbox2,
    MailboxChannel, MailboxLane, EXR_FREE,
};

#[test]
fn lock_core_bits() {
    assert_eq!(LockCore::from_bits(0), LockCore::Unlocked);
    assert_eq!(LockCore::from_bits(1), LockCore::Hcpu);
    assert_eq!(LockCore::from_bits(2), LockCore::Lcpu);
    assert_eq!(LockCore::from_bits(3), LockCore::Bcpu);
    assert_eq!(LockCore::from_bits(0xfe), LockCore::Lcpu);
    for core in [LockCore::Unlocked, LockCore::Hcpu, LockCore::Lcpu, LockCore::Bcpu] {
        assert_eq!(LockCore::from_bits(core.to_bits()), core);
        assert_eq!(core.is_locked(), core != LockCore::Unlocked);
    }
}

#[test]
fn mutex_word_decoding() {
    assert_eq!(decode_exr(EXR_FREE), LockCore::Unlocked);
    assert_eq!(decode_exr(0b001), LockCore::Unlocked);
    assert_eq!(decode_exr(0b111), LockCore::Unlocked);
    assert_eq!(decode_exr(0b010), LockCore::Hcpu);
    assert_eq!(decode_exr(0b100), LockCore::Lcpu);
    assert_eq!(decode_exr(0b110), LockCore::Bcpu);
    assert_eq!(decode_exr(0xffff_fff4), LockCore::Lcpu);
}

#[test]
fn register_words() {
    assert_eq!(trigger_word(0), 1);
    assert_eq!(trigger_word(15), 0x8000);
    assert_eq!(enable_word(0x0101, 4, true), 0x0111);
    assert_eq!(enable_word(0x0111, 4, true), 0x0111);
    assert_eq!(enable_word(0x0111, 8, false), 0x0011);
    assert_eq!(enable_word(0x0011, 8, false), 0x0011);
}

#[test]
fn only_one_of_many_attempts_takes_the_mutex() {
    let mut lane = MailboxLane::new();
    let cores = [
        LockCore::Lcpu,
        LockCore::Hcpu,
        LockCore::Bcpu,
        LockCore::Hcpu,
        LockCore::Lcpu,
        LockCore::Lcpu,
        LockCore::Bcpu,
    ];
    let mut seen = Vec::new();
    for core in cores {
        let mut ch = MailboxChannel::new(core, 0);
        seen.push(ch.try_lock(&mut lane));
    }
    assert_eq!(seen.iter().filter(|c| **c == LockCore::Unlocked).count(), 1);
    assert_eq!(seen[0], LockCore::Unlocked);
    for owner in &seen[1..] {
        assert_eq!(*owner, LockCore::Lcpu);
    }
    // More attempts change nothing.
    let mut hcpu = MailboxChannel::new(LockCore::Hcpu, 0);
    for _ in 0..100 {
        assert_eq!(hcpu.try_lock(&mut lane), LockCore::Lcpu);
    }
}

#[test]
fn unlock_frees_the_mutex_for_the_next_core() {
    let mut lane = MailboxLane::new();
    let mut hcpu = MailboxChannel::new(LockCore::Hcpu, 2);
    let mut lcpu = MailboxChannel::new(LockCore::Lcpu, 2);
    assert_eq!(hcpu.channel_index(), 2);
    assert_eq!(lcpu.owner_core(), LockCore::Lcpu);

    assert_eq!(hcpu.try_lock(&mut lane), LockCore::Unlocked);
    assert_eq!(lcpu.try_lock(&mut lane), LockCore::Hcpu);
    assert_eq!(hcpu.try_lock(&mut lane), LockCore::Hcpu);
    hcpu.unlock(&mut lane);
    assert_eq!(lcpu.try_lock(&mut lane), LockCore::Unlocked);
    assert_eq!(hcpu.try_lock(&mut lane), LockCore::Lcpu);
    lcpu.unlock(&mut lane);
    assert_eq!(hcpu.try_lock(&mut lane), LockCore::Unlocked);
}

#[test]
fn raw_mutex_reads() {
    let mut lane = MailboxLane::new();
    assert_eq!(lane.read_exr(LockCore::Bcpu), EXR_FREE);
    assert_eq!(lane.read_exr(LockCore::Hcpu), 0b110);
    assert_eq!(lane.read_exr(LockCore::Lcpu), 0b110);
    lane.write_exr_free();
    assert_eq!(lane.read_exr(LockCore::Hcpu), 1);
    assert_eq!(lane.read_exr(LockCore::Hcpu), 0b010);
}

#[test]
fn triggered_bits_are_pending_only_when_enabled() {
    let mut lane = MailboxLane::new();
    let mut tx = MailboxChannel::new(LockCore::Hcpu, 0);
    let mut rx = MailboxChannel::new(LockCore::Lcpu, 0);

    tx.trigger(&mut lane, 3);
    assert_eq!(lane.read_isr(), 0b1000);
    assert_eq!(rx.pending(&lane), 0);

    rx.enable_interrupt(&mut lane, 3);
    assert_eq!(lane.read_ier(), 0b1000);
    assert_eq!(rx.pending(&lane), 0b1000);

    tx.trigger_mask(&mut lane, 0b1000_1001);
    assert_eq!(lane.read_isr(), 0b1000_1001);
    assert_eq!(rx.pending(&lane), 0b1000);
    assert_eq!(lane.read_misr(), 0b1000);

    rx.enable_interrupt(&mut lane, 7);
    rx.enable_interrupt(&mut lane, 15);
    assert_eq!(rx.pending(&lane), 0b1000_1000);

    rx.disable_interrupt(&mut lane, 3);
    assert_eq!(lane.read_ier(), 0x8080);
    assert_eq!(rx.pending(&lane), 0b1000_0000);
}

#[test]
fn clear_acknowledges_only_the_written_bits() {
    let mut lane = MailboxLane::new();
    let mut tx = MailboxChannel::new(LockCore::Hcpu, 1);
    let mut rx = MailboxChannel::new(LockCore::Lcpu, 1);
    lane.write_ier(0xffff);
    tx.trigger_mask(&mut lane, 0xf0f0);
    rx.clear(&mut lane, 0x00f0);
    assert_eq!(rx.pending(&lane), 0xf000);
    rx.clear(&mut lane, 0x0f0f);
    assert_eq!(rx.pending(&lane), 0xf000);
    tx.trigger(&mut lane, 15);
    tx.trigger(&mut lane, 0);
    assert_eq!(rx.pending(&lane), 0xf001);
    rx.clear(&mut lane, 0xffff);
    assert_eq!(rx.pending(&lane), 0);
    assert_eq!(lane.read_isr(), 0);
}

#[test]
fn signalling_leaves_the_mutex_alone() {
    let mut lane = MailboxLane::new();
    let mut hcpu = MailboxChannel::new(LockCore::Hcpu, 0);
    assert_eq!(hcpu.try_lock(&mut lane), LockCore::Unlocked);
    hcpu.trigger_mask(&mut lane, 0xffff);
    hcpu.enable_interrupt(&mut lane, 1);
    hcpu.clear(&mut lane, 0xff);
    let mut lcpu = MailboxChannel::new(LockCore::Lcpu, 0);
    assert_eq!(lcpu.try_lock(&mut lane), LockCore::Hcpu);
}

#[test]
fn mailboxes_have_four_and_two_lanes() {
    let mb1 = Mailbox1::new(LockCore::Hcpu);
    assert_eq!(mb1.ch1.channel_index(), 0);
    assert_eq!(mb1.ch4.channel_index(), 3);
    let (c1, c2, c3, c4) = mb1.split();
    assert_eq!(
        [c1.channel_index(), c2.channel_index(), c3.channel_index(), c4.channel_index()],
        [0, 1, 2, 3]
    );
    assert_eq!(c3.owner_core(), LockCore::Hcpu);
    let mb2 = Mailbox2::new(LockCore::Lcpu);
    let (d1, d2) = mb2.split();
    assert_eq!([d1.channel_index(), d2.channel_index()], [0, 1]);
    assert_eq!(d2.owner_core(), LockCore::Lcpu);
}
