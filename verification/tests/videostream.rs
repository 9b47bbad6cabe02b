use videostream::client::Client;
use videostream::encoder::{Encoder, VSLRect, ENC_BAD_FORMAT, ENC_BAD_GEOMETRY, ENC_NOT_MAPPABLE, ENC_OK};
use videostream::error::VsError;
use videostream::frame::Frame;
use videostream::host::Host;
use videostream::{fourcc, fourcc_decode, fourcc_encode};

#[test]
fn test_fourcc_nv12() {
    assert_eq!(fourcc("NV12"), 0x3231564E);
    assert_eq!(fourcc("H264"), 0x34363248);
}

#[test]
fn test_fourcc_decode_bytes() {
    assert_eq!(fourcc_decode(0x3231564E), [0x4E, 0x56, 0x31, 0x32]);
    assert_eq!(fourcc_decode(0x3231564E), *b"NV12");
}

#[test]
fn test_fourcc_round_trip() {
    for x in [0u32, 1, 0x3231564E, 0x34363248, u32::MAX, 0x00FF00FF] {
        assert_eq!(fourcc_encode(&fourcc_decode(x)), x);
    }
    assert_eq!(fourcc_decode(fourcc_encode(b"YUYV")), *b"YUYV");
}

#[test]
fn test_frame_new_format_validation() {
    // a 3-character format string is rejected, a 4-character one accepted
    assert_eq!(Frame::new(640, 480, 640, "NV1").err(), Some(VsError::InvalidFormat));
    assert_eq!(Frame::new(640, 480, 640, "NV123").err(), Some(VsError::InvalidFormat));
    let f = Frame::new(640, 480, 640, "NV12").unwrap();
    assert_eq!(f.fourcc(), fourcc("NV12"));
    assert_eq!(f.width(), 640);
    assert_eq!(f.height(), 480);
    assert_eq!(f.stride(), 640);
    assert_eq!(f.size(), 0);
    assert_eq!(f.serial(), 0);
}

#[test]
fn test_frame_map_without_backing() {
    // map on a frame that was created but never allocated or attached
    let mut f = Frame::new(640, 480, 640, "NV12").unwrap();
    assert_eq!(f.mmap(), Err(VsError::NotLockable));
    f.allocate(None).unwrap();
    assert_eq!(f.mmap(), Ok(640 * 480));
    assert!(f.mapped());
    f.munmap();
    assert!(!f.mapped());
}

#[test]
fn test_frame_allocate_twice() {
    let mut f = Frame::new(64, 64, 64, "GREY").unwrap();
    assert_eq!(f.allocate(None), Ok(()));
    assert_eq!(f.size(), 64 * 64);
    assert_eq!(f.allocate(None), Err(VsError::AllocationFailed));
}

#[test]
fn test_frame_allocate_with_path() {
    let mut f = Frame::new(64, 64, 64, "GREY").unwrap();
    f.allocate(Some(String::from("/dev/shm/frame0"))).unwrap();
    assert_eq!(f.path().map(|p| p.as_str()), Some("/dev/shm/frame0"));
    assert_eq!(f.handle(), None);
    assert_eq!(f.paddr(), None);
    assert_eq!(f.mmap(), Ok(64 * 64));
}

#[test]
fn test_frame_attach() {
    let mut f = Frame::new(64, 64, 64, "GREY").unwrap();
    assert_eq!(f.attach(-1, 4096, 0), Err(VsError::InvalidDescriptor));
    assert_eq!(f.attach(5, 0, 0), Err(VsError::InvalidDescriptor));
    assert_eq!(f.attach(5, 4096, 0), Ok(()));
    assert_eq!(f.handle(), Some(5));
    assert_eq!(f.path(), None);
    assert_eq!(f.size(), 4096);
    // a second binding is refused
    assert_eq!(f.attach(6, 4096, 0), Err(VsError::InvalidDescriptor));
}

#[test]
fn test_frame_trylock_contention() {
    // a lock held by one owner makes any other owner's trylock fail at once
    let mut f = Frame::new(64, 64, 64, "GREY").unwrap();
    f.allocate(None).unwrap();
    assert_eq!(f.trylock(1), Ok(()));
    assert_eq!(f.trylock(2), Err(VsError::AlreadyLocked));
    // the holder's state is intact: owner 2 cannot unlock, owner 1 can
    assert_eq!(f.unlock(2), Err(VsError::NotLocked));
    assert_eq!(f.size(), 64 * 64);
    assert_eq!(f.unlock(1), Ok(()));
    assert_eq!(f.trylock(2), Ok(()));
}

#[test]
fn test_frame_unlock_without_lock() {
    let mut f = Frame::new(64, 64, 64, "GREY").unwrap();
    assert_eq!(f.unlock(1), Err(VsError::NotLocked));
}

#[test]
fn test_frame_mmap_mut_needs_lock() {
    let mut f = Frame::new(64, 64, 64, "GREY").unwrap();
    assert_eq!(f.mmap_mut(1), Err(VsError::NotLockable));
    f.allocate(None).unwrap();
    assert_eq!(f.mmap_mut(1), Err(VsError::NotLocked));
    f.trylock(1).unwrap();
    assert_eq!(f.mmap_mut(2), Err(VsError::NotLocked));
    assert_eq!(f.mmap_mut(1), Ok(64 * 64));
}

#[test]
fn test_frame_release_clears_everything() {
    let mut f = Frame::new(64, 64, 64, "GREY").unwrap();
    f.allocate(None).unwrap();
    f.trylock(7).unwrap();
    f.mmap_mut(7).unwrap();
    f.release();
    assert!(!f.mapped());
    assert_eq!(f.size(), 0);
    assert_eq!(f.unlock(7), Err(VsError::NotLocked));
    assert_eq!(f.mmap(), Err(VsError::NotLockable));
}

#[test]
fn test_host_slot_reuse_greater_serial() {
    // releasing the last reference frees the slot; the next occupant gets a
    // strictly greater serial
    let mut h = Host::create(1, 1_000, 8);
    let mut c = Client::connect(&mut h).unwrap();
    let slot = h.new_frame(640, 480, 640, "NV12", 0, 0, 0, 0).unwrap();
    assert_eq!(slot, 0);
    let s1 = h.publish(slot, 0).unwrap();
    assert_eq!(s1, 1);
    let fr = c.get_frame(&mut h, 1_000).unwrap();
    assert_eq!(fr.serial, 1);
    // the pool is exhausted while the frame is referenced and unexpired
    assert_eq!(h.new_frame(640, 480, 640, "NV12", 0, 0, 0, 0), Err(VsError::AllocationFailed));
    c.release(&mut h, fr);
    let slot2 = h.new_frame(640, 480, 640, "NV12", 0, 0, 0, 0).unwrap();
    assert_eq!(slot2, 0);
    let s2 = h.publish(slot2, 0).unwrap();
    assert!(s2 > s1);
    assert_eq!(s2, 2);
}

#[test]
fn test_host_new_frame_invalid_format() {
    let mut h = Host::create(1, 1_000, 8);
    assert_eq!(h.new_frame(640, 480, 640, "NV", 0, 0, 0, 0), Err(VsError::InvalidFormat));
}

#[test]
fn test_stale_reference_after_expiry() {
    // a handle kept across a force-reclaim observes StaleReference, never
    // the new occupant's data
    let mut h = Host::create(1, 10, 8);
    let mut c = Client::connect(&mut h).unwrap();
    let slot = h.new_frame(640, 480, 640, "NV12", 0, 0, 0, 0).unwrap();
    h.publish(slot, 0).unwrap();
    let fr = c.get_frame(&mut h, 1_000).unwrap();
    assert_eq!(c.read(&h, &fr), Ok(640 * 480));
    // the lease ran out at 10; the host force-reclaims despite the reference
    h.reclaim_expired(20);
    assert_eq!(c.read(&h, &fr), Err(VsError::StaleReference));
    assert_eq!(c.trylock(&mut h, &fr), Err(VsError::StaleReference));
    // after the slot is reused the old handle still reads as stale
    let slot2 = h.new_frame(640, 480, 640, "NV12", 0, 0, 0, 20).unwrap();
    assert_eq!(slot2, 0);
    h.publish(slot2, 20).unwrap();
    assert_eq!(c.read(&h, &fr), Err(VsError::StaleReference));
}

#[test]
fn test_late_subscriber_misses_earlier_publish() {
    // a client that connects after a publish does not receive it, but does
    // receive the next one
    let mut h = Host::create(1, 1_000, 8);
    let mut a = Client::connect(&mut h).unwrap();
    let slot = h.new_frame(640, 480, 640, "NV12", 0, 0, 0, 0).unwrap();
    let s1 = h.publish(slot, 0).unwrap();
    assert_eq!(s1, 1);
    let mut b = Client::connect(&mut h).unwrap();
    let fra = a.get_frame(&mut h, 1_000).unwrap();
    assert_eq!(fra.serial, 1);
    assert_eq!(fra.width, 640);
    assert_eq!(fra.height, 480);
    assert_eq!(fra.code, fourcc("NV12"));
    // B must not see serial 1
    assert_eq!(b.get_frame(&mut h, 1_000).err(), Some(VsError::Timeout));
    a.release(&mut h, fra);
    let slot2 = h.new_frame(640, 480, 640, "NV12", 0, 0, 0, 10).unwrap();
    let s2 = h.publish(slot2, 10).unwrap();
    assert_eq!(s2, 2);
    let frb = b.get_frame(&mut h, 1_000).unwrap();
    assert_eq!(frb.serial, 2);
}

#[test]
fn test_stale_notification_dropped_silently() {
    // a pending notification whose slot was reclaimed and reused resolves
    // to the newer occupant only
    let mut h = Host::create(2, 10, 8);
    let mut c = Client::connect(&mut h).unwrap();
    let slot = h.new_frame(320, 240, 320, "NV12", 0, 0, 0, 0).unwrap();
    h.publish(slot, 0).unwrap();
    // the first frame expires; its slot is reclaimed and republished
    h.reclaim_expired(12);
    let slot2 = h.new_frame(320, 240, 320, "NV12", 0, 0, 0, 12).unwrap();
    assert_eq!(slot2, slot);
    let s2 = h.publish(slot2, 12).unwrap();
    assert_eq!(s2, 2);
    // the stale first notification is dropped on the way to the second
    let fr = c.get_frame(&mut h, 1_000).unwrap();
    assert_eq!(fr.serial, 2);
    assert_eq!(c.get_frame(&mut h, 1_000).err(), Some(VsError::Timeout));
}

#[test]
fn test_release_is_idempotent() {
    let mut h = Host::create(1, 1_000, 8);
    let mut c = Client::connect(&mut h).unwrap();
    let slot = h.new_frame(64, 64, 64, "GREY", 0, 0, 0, 0).unwrap();
    h.publish(slot, 0).unwrap();
    let fr = c.get_frame(&mut h, 1_000).unwrap();
    c.release(&mut h, fr);
    // releasing again changes nothing and does not disturb the free slot
    c.release(&mut h, fr);
    assert_eq!(c.read(&h, &fr), Err(VsError::StaleReference));
    assert!(h.new_frame(64, 64, 64, "GREY", 0, 0, 0, 0).is_ok());
}

#[test]
fn test_client_locking_on_shared_slot() {
    // two clients resolve the same published frame; the lock excludes one
    // while the other holds it
    let mut h = Host::create(1, 1_000, 8);
    let mut a = Client::connect(&mut h).unwrap();
    let mut b = Client::connect(&mut h).unwrap();
    let slot = h.new_frame(64, 64, 64, "GREY", 0, 0, 0, 0).unwrap();
    h.publish(slot, 0).unwrap();
    let fra = a.get_frame(&mut h, 1_000).unwrap();
    let frb = b.get_frame(&mut h, 1_000).unwrap();
    assert_eq!(fra.serial, frb.serial);
    assert_eq!(a.trylock(&mut h, &fra), Ok(()));
    assert_eq!(b.trylock(&mut h, &frb), Err(VsError::AlreadyLocked));
    assert_eq!(b.unlock(&mut h, &frb), Err(VsError::NotLocked));
    assert_eq!(a.unlock(&mut h, &fra), Ok(()));
    assert_eq!(b.trylock(&mut h, &frb), Ok(()));
}

#[test]
fn test_timeout_closed_and_refused_connections() {
    let mut h = Host::create(1, 1_000, 8);
    let mut c = Client::connect(&mut h).unwrap();
    // nothing pending: the caller's deadline passes
    assert_eq!(c.get_frame(&mut h, 5).err(), Some(VsError::Timeout));
    h.shutdown();
    assert_eq!(c.get_frame(&mut h, 5).err(), Some(VsError::ConnectionClosed));
    assert_eq!(Client::connect(&mut h).err(), Some(VsError::ConnectionFailed));
}

#[test]
fn test_disconnect_stops_delivery() {
    let mut h = Host::create(1, 1_000, 8);
    let mut c = Client::connect(&mut h).unwrap();
    c.disconnect(&mut h);
    let slot = h.new_frame(64, 64, 64, "GREY", 0, 0, 0, 0).unwrap();
    h.publish(slot, 0).unwrap();
    assert_eq!(c.get_frame(&mut h, 5).err(), Some(VsError::ConnectionClosed));
}

#[test]
fn test_rect_accessors() {
    let r = VSLRect::new(8, 16, 320, 240);
    assert_eq!(r.get_x(), 8);
    assert_eq!(r.get_y(), 16);
    assert_eq!(r.get_width(), 320);
    assert_eq!(r.get_height(), 240);
}

#[test]
fn test_encoder_first_frame_is_keyframe() {
    // the configured encoder produces a sized output frame and flags its
    // first transform as a sync point
    let enc_code = fourcc("H264");
    let mut enc = Encoder::create(1, enc_code, 30);
    let dst = enc.new_output_frame(1280, 720, 33_333, 0, 0).unwrap();
    assert_eq!(dst.width(), 1280);
    assert_eq!(dst.height(), 720);
    assert_eq!(dst.duration(), 33_333);
    assert_eq!(dst.fourcc(), enc_code);
    let mut src = Frame::new(1280, 720, 1280, "NV12").unwrap();
    src.allocate(None).unwrap();
    let crop = VSLRect::new(0, 0, 1280, 720);
    let mut keyframe: i32 = 0;
    assert_eq!(enc.frame(&src, &dst, &crop, &mut keyframe), ENC_OK);
    assert_eq!(keyframe, 1);
    assert_eq!(enc.frame(&src, &dst, &crop, &mut keyframe), ENC_OK);
    assert_eq!(keyframe, 0);
}

#[test]
fn test_encoder_output_frame_rejects_bad_geometry() {
    let enc = Encoder::create(1, fourcc("H264"), 30);
    assert_eq!(enc.new_output_frame(0, 720, 0, 0, 0).err(), Some(VsError::AllocationFailed));
    assert_eq!(enc.new_output_frame(1280, -1, 0, 0, 0).err(), Some(VsError::AllocationFailed));
}

#[test]
fn test_encoder_transform_error_classes() {
    let mut enc = Encoder::create(1, fourcc("H264"), 30);
    let dst = enc.new_output_frame(640, 480, 0, 0, 0).unwrap();
    let mut src = Frame::new(640, 480, 640, "NV12").unwrap();
    let mut keyframe: i32 = -7;
    // empty or out-of-source crop
    let empty = VSLRect::new(0, 0, 0, 0);
    assert_eq!(enc.frame(&src, &dst, &empty, &mut keyframe), ENC_BAD_GEOMETRY);
    let outside = VSLRect::new(0, 0, 641, 480);
    assert_eq!(enc.frame(&src, &dst, &outside, &mut keyframe), ENC_BAD_GEOMETRY);
    let crop = VSLRect::new(0, 0, 640, 480);
    // a destination that is not in the encoder's output format
    let mut wrong_dst = Frame::new(640, 480, 640, "NV12").unwrap();
    wrong_dst.allocate(None).unwrap();
    assert_eq!(enc.frame(&src, &wrong_dst, &crop, &mut keyframe), ENC_BAD_FORMAT);
    // an unbound source cannot be mapped
    assert_eq!(enc.frame(&src, &dst, &crop, &mut keyframe), ENC_NOT_MAPPABLE);
    // the failures left the keyframe flag alone
    assert_eq!(keyframe, -7);
    src.allocate(None).unwrap();
    assert_eq!(enc.frame(&src, &dst, &crop, &mut keyframe), ENC_OK);
    assert_eq!(keyframe, 1);
}

#[test]
fn test_abandon_unpublished_slot() {
    // an allocated slot can return to the pool without ever being published
    let mut h = Host::create(1, 1_000, 8);
    let slot = h.new_frame(64, 64, 64, "GREY", 0, 0, 0, 0).unwrap();
    assert_eq!(h.new_frame(64, 64, 64, "GREY", 0, 0, 0, 0), Err(VsError::AllocationFailed));
    h.abandon(slot);
    let slot2 = h.new_frame(64, 64, 64, "GREY", 0, 0, 0, 0).unwrap();
    assert_eq!(slot2, slot);
    // the abandoned occupancy was never published, so serials continue from 1
    assert_eq!(h.publish(slot2, 0).unwrap(), 1);
}

#[test]
fn test_full_queue_drops_new_notification() {
    // an endpoint whose queue is at the host's bound misses the publish
    let mut h = Host::create(2, 1_000, 1);
    let mut c = Client::connect(&mut h).unwrap();
    let s0 = h.new_frame(64, 64, 64, "GREY", 0, 0, 0, 0).unwrap();
    h.publish(s0, 0).unwrap();
    let s1 = h.new_frame(64, 64, 64, "GREY", 0, 0, 0, 0).unwrap();
    h.publish(s1, 0).unwrap();
    // only the first notification fit the queue of one
    let fr = c.get_frame(&mut h, 1_000).unwrap();
    assert_eq!(fr.serial, 1);
    assert_eq!(c.get_frame(&mut h, 1_000).err(), Some(VsError::Timeout));
}
