use interop_frame::shader::shader_words;
use interop_frame::slot::{shared_handle_name, shared_handle_wide_name, SlotBuild, SlotStage};

#[test]
fn shared_names_follow_slot_index() {
    assert_eq!(shared_handle_name(0), "LocalSharedBackBufferResource0");
    assert_eq!(shared_handle_name(1), "LocalSharedBackBufferResource1");
}

#[test]
fn wide_shared_name_is_nul_terminated_utf16() {
    let expected: Vec<u16> = "LocalSharedBackBufferResource1".encode_utf16().chain(std::iter::once(0)).collect();
    assert_eq!(shared_handle_wide_name(1), expected);
    let w0 = shared_handle_wide_name(0);
    assert_eq!(w0.len(), 31);
    assert_eq!(w0[0], 'L' as u16);
    assert_eq!(w0[29], '0' as u16);
    assert_eq!(w0[30], 0);
}

#[test]
fn slot_builds_in_order_and_refuses_skips() {
    let mut b = SlotBuild::new(1);
    assert_eq!(b.slot(), 1);
    assert_eq!(b.next_stage(), Some(SlotStage::BackBuffer));
    assert!(!b.acquire(SlotStage::Image));
    assert!(b.built().is_empty());
    assert!(b.acquire(SlotStage::BackBuffer));
    assert!(b.acquire(SlotStage::SharedHandle));
    assert!(!b.acquire(SlotStage::SharedHandle));
    assert_eq!(b.built(), vec![SlotStage::BackBuffer, SlotStage::SharedHandle]);
    assert!(!b.is_complete());
}

#[test]
fn slot_teardown_reverses_construction() {
    let mut b = SlotBuild::new(0);
    let order = [
        SlotStage::BackBuffer,
        SlotStage::SharedHandle,
        SlotStage::Image,
        SlotStage::Memory,
        SlotStage::ImageView,
        SlotStage::Framebuffer,
    ];
    for s in order {
        assert!(b.acquire(s));
    }
    assert!(b.is_complete());
    assert_eq!(b.next_stage(), None);
    assert!(!b.acquire(SlotStage::Framebuffer));
    let released = b.teardown();
    let mut reversed = order.to_vec();
    reversed.reverse();
    assert_eq!(released, reversed);
    assert!(b.built().is_empty());
    assert_eq!(b.release(), None);
}

#[test]
fn partial_slot_releases_last_built_first() {
    let mut b = SlotBuild::new(0);
    assert!(b.acquire(SlotStage::BackBuffer));
    assert!(b.acquire(SlotStage::SharedHandle));
    assert!(b.acquire(SlotStage::Image));
    assert_eq!(b.release(), Some(SlotStage::Image));
    assert_eq!(b.teardown(), vec![SlotStage::SharedHandle, SlotStage::BackBuffer]);
}

#[test]
fn shader_words_little_endian() {
    assert_eq!(shader_words(&vec![0x03, 0x02, 0x23, 0x07]), vec![0x0723_0203]);
    assert_eq!(
        shader_words(&vec![1, 2, 3, 4, 5, 6, 7, 8]),
        vec![0x0403_0201, 0x0807_0605]
    );
}

#[test]
fn shader_words_zero_fill_partial_word() {
    assert_eq!(shader_words(&vec![1, 2, 3, 4, 5]), vec![0x0403_0201, 0x0000_0005]);
    assert_eq!(shader_words(&vec![0xff, 0xff]), vec![0x0000_ffff]);
}

#[test]
fn shader_words_empty() {
    assert!(shader_words(&Vec::new()).is_empty());
}
