use std::convert::TryInto;
use std::sync::Arc;

use afxdp::buf::Buf;
use afxdp::buf_mmap::BufMmap;
use afxdp::mmap_area::{
    map_request, slots_hold_reserve, MmapArea, MmapAreaOptions, MmapError, MAP_FAILED,
};
use afxdp::AF_XDP_RESERVED;

#[derive(Default, Copy, Clone, Debug)]
struct BufCustom {}

/// Memory for a request, as the system would map it: zeroed, and as long as
/// was asked.
fn memory_for(buf_num: usize, buf_len: usize, options: &MmapAreaOptions) -> Vec<u8> {
    let request = match map_request(buf_num, buf_len, options) {
        Ok(request) => request,
        Err(err) => panic!("{:?}", err),
    };
    vec![0u8; request.len]
}

/// Test that bufs ends up with the correct number of buffers and each is the correct length
#[test]
fn bufs_to_pool() {
    const BUF_NUM: usize = 1024;
    const BUF_LEN: usize = 2048;

    let options = MmapAreaOptions { huge_tlb: false };
    let mut memory = memory_for(BUF_NUM, BUF_LEN, &options);
    let base = memory.as_ptr() as usize;
    let r: Result<(Arc<MmapArea<BufCustom>>, Vec<BufMmap<BufCustom>>), MmapError> =
        MmapArea::new(BUF_NUM, BUF_LEN, base, &mut memory);

    let (area, bufs) = match r {
        Ok((area, bufs)) => (area, bufs),
        Err(err) => panic!("{:?}", err),
    };

    assert_eq!(area.get_buf_num(), BUF_NUM);
    assert_eq!(area.get_buf_len(), BUF_LEN);
    assert_eq!(bufs.len(), BUF_NUM);

    for buf in bufs {
        if buf.get_data().len() != BUF_LEN - AF_XDP_RESERVED as usize {
            panic!(
                "expected buf len {} found {}",
                BUF_LEN,
                buf.get_data().len()
            );
        }
    }
}

// Test writing and reading multi-byte values at the start of each buf
#[test]
fn buf_values() {
    const BUF_NUM: usize = 1024;
    const BUF_LEN: usize = 2048;

    let options = MmapAreaOptions { huge_tlb: false };
    let mut memory = memory_for(BUF_NUM, BUF_LEN, &options);
    let base = memory.as_ptr() as usize;
    let r: Result<(Arc<MmapArea<BufCustom>>, Vec<BufMmap<BufCustom>>), MmapError> =
        MmapArea::new(BUF_NUM, BUF_LEN, base, &mut memory);

    let (area, mut bufs) = match r {
        Ok((area, buf_pool)) => (area, buf_pool),
        Err(err) => panic!("{:?}", err),
    };

    assert_eq!(area.get_buf_num(), BUF_NUM);
    assert_eq!(area.get_buf_len(), BUF_LEN);
    assert_eq!(bufs.len(), BUF_NUM);

    //
    // Write a value to each buf and then ensure we read the same values out
    //
    let base: u64 = 3983989832773837873;

    for (i, buf) in bufs.iter_mut().enumerate() {
        let val = i as u64 + base;
        let bytes = val.to_ne_bytes();
        let data = buf.get_data_with_headroom_mut();
        data[0] = bytes[0];
        data[1] = bytes[1];
        data[2] = bytes[2];
        data[3] = bytes[3];
        data[4] = bytes[4];
        data[5] = bytes[5];
        data[6] = bytes[6];
        data[7] = bytes[7];
    }

    for (i, buf) in bufs.iter_mut().enumerate() {
        let val: u64 = i as u64 + base;

        let (int_bytes, _rest) = buf
            .get_data_with_headroom()
            .split_at(std::mem::size_of::<u64>());
        let val2 = u64::from_ne_bytes(int_bytes.try_into().unwrap());

        assert_eq!(val, val2);
    }
}

// Test writing and reading from each byte of each buf
#[test]
fn buf_values2() {
    const BUF_NUM: usize = 256;
    const BUF_LEN: usize = 2048;

    let options = MmapAreaOptions { huge_tlb: false };
    let mut memory = memory_for(BUF_NUM, BUF_LEN, &options);
    let base = memory.as_ptr() as usize;
    let r: Result<(Arc<MmapArea<BufCustom>>, Vec<BufMmap<BufCustom>>), MmapError> =
        MmapArea::new(BUF_NUM, BUF_LEN, base, &mut memory);

    let (area, mut bufs) = match r {
        Ok((area, buf_pool)) => (area, buf_pool),
        Err(err) => panic!("{:?}", err),
    };

    assert_eq!(area.get_buf_num(), BUF_NUM);
    assert_eq!(area.get_buf_len(), BUF_LEN);
    assert_eq!(bufs.len(), BUF_NUM);

    //
    // Write the buf number into every byte of each buf
    //
    for (i, buf) in bufs.iter_mut().enumerate() {
        let data = buf.get_data_with_headroom_mut();
        for j in 0..BUF_LEN - AF_XDP_RESERVED as usize {
            data[j] = i as u8;
        }
    }

    //
    // Validate that the buf number is present in every byte of each buf
    //
    for (i, buf) in bufs.iter_mut().enumerate() {
        let data = buf.get_data_with_headroom();
        for j in 0..BUF_LEN - AF_XDP_RESERVED as usize {
            assert_eq!(data[j], i as u8);
        }
    }
}

#[test]
fn failed_mapping_is_reported() {
    let mut nothing: Vec<u8> = Vec::new();
    let r: Result<(Arc<MmapArea<BufCustom>>, Vec<BufMmap<BufCustom>>), MmapError> =
        MmapArea::new(4, 2048, MAP_FAILED, &mut nothing);
    assert!(matches!(r, Err(MmapError::Failed)));
}

#[test]
fn request_is_slots_times_slot_size() {
    let request = map_request(1024, 2048, &MmapAreaOptions { huge_tlb: false }).unwrap();
    assert_eq!(request.len, 2_097_152);
    assert!(request.readable && request.writable);
    assert!(request.private && request.anonymous);
    assert!(!request.huge_tlb);

    let request = map_request(3, 4096, &MmapAreaOptions { huge_tlb: true }).unwrap();
    assert_eq!(request.len, 12_288);
    assert!(request.readable && request.writable);
    assert!(request.private && request.anonymous);
    assert!(request.huge_tlb);

    let request = map_request(0, 2048, &MmapAreaOptions::default()).unwrap();
    assert_eq!(request.len, 0);
    assert!(!request.huge_tlb);
}

#[test]
fn request_beyond_the_address_space_fails() {
    let options = MmapAreaOptions { huge_tlb: false };
    assert!(matches!(
        map_request(usize::MAX, 2, &options),
        Err(MmapError::Failed)
    ));
    assert!(matches!(
        map_request(usize::MAX / 2 + 1, 2, &options),
        Err(MmapError::Failed)
    ));
    assert_eq!(map_request(usize::MAX, 1, &options).unwrap().len, usize::MAX);
}

#[test]
fn options_default_to_ordinary_pages() {
    assert!(!MmapAreaOptions::default().huge_tlb);
}

#[test]
fn fresh_buffers_start_empty_at_their_offsets() {
    let mut memory = vec![0u8; 8 * 512];
    memory[3 * 512] = 0x5a;
    let r: Result<(Arc<MmapArea<u32>>, Vec<BufMmap<u32>>), MmapError> =
        MmapArea::new(8, 512, 0x7f00_0000_0000, &mut memory);
    let (area, bufs) = r.unwrap();

    assert_eq!(area.get_ptr(), 0x7f00_0000_0000);
    assert_eq!(area.get_buf_num(), 8);
    assert_eq!(area.get_buf_len(), 512);
    assert_eq!(bufs.len(), 8);
    for (i, buf) in bufs.iter().enumerate() {
        assert_eq!(buf.get_addr(), (i * 512) as u64);
        assert_eq!(buf.get_len(), 0);
        assert_eq!(buf.get_headroom(), 256);
        assert_eq!(buf.get_capacity(), 256);
        assert_eq!(buf.get_data().len(), 256);
        assert_eq!(buf.get_data_with_headroom().len(), 512);
        assert_eq!(*buf.get_user(), 0);
    }
    assert_eq!(bufs[5].get_addr(), 2560);
    assert_eq!(bufs[3].get_data_with_headroom()[0], 0x5a);
    assert_eq!(bufs[2].get_data_with_headroom()[0], 0);
}

#[test]
fn every_slot_lands_in_its_own_part_of_the_arena() {
    const BUF_NUM: usize = 16;
    const BUF_LEN: usize = 512;

    let mut memory = vec![0u8; BUF_NUM * BUF_LEN];
    let r: Result<(Arc<MmapArea<BufCustom>>, Vec<BufMmap<BufCustom>>), MmapError> =
        MmapArea::new(BUF_NUM, BUF_LEN, 4096, &mut memory);
    let (area, mut bufs) = r.unwrap();

    // Written in an order of its own, so that a slot that reached into a
    // neighbour would be overwritten by it or overwrite it.
    for i in (0..BUF_NUM).rev() {
        for byte in bufs[i].get_data_with_headroom_mut().iter_mut() {
            *byte = 0x80 + i as u8;
        }
    }
    bufs[7].get_data_mut()[0] = 0x07;
    for (i, buf) in bufs.iter().enumerate() {
        assert!(buf.get_data_with_headroom().iter().take(256).all(|b| *b == 0x80 + i as u8));
    }
    assert_eq!(bufs[7].get_data()[0], 0x07);
    assert_eq!(bufs[7].get_data()[1], 0x87);
    assert_eq!(bufs[6].get_data()[0], 0x86);
    assert_eq!(bufs[8].get_data()[0], 0x88);

    drop(bufs);
    drop(area);
    for i in 0..BUF_NUM {
        for j in 0..BUF_LEN {
            let expected = if i == 7 && j == 256 { 0x07 } else { 0x80 + i as u8 };
            assert_eq!(memory[i * BUF_LEN + j], expected);
        }
    }
}

#[test]
fn memory_of_another_size_is_no_mapping() {
    let mut memory = vec![7u8; 4096];
    let r: Result<(Arc<MmapArea<BufCustom>>, Vec<BufMmap<BufCustom>>), MmapError> =
        MmapArea::new(3, 2048, 4096, &mut memory);
    assert!(matches!(r, Err(MmapError::Failed)));
    let r: Result<(Arc<MmapArea<BufCustom>>, Vec<BufMmap<BufCustom>>), MmapError> =
        MmapArea::new(1, 2048, 4096, &mut memory);
    assert!(matches!(r, Err(MmapError::Failed)));
    let r: Result<(Arc<MmapArea<BufCustom>>, Vec<BufMmap<BufCustom>>), MmapError> =
        MmapArea::new(usize::MAX, 2048, 4096, &mut memory);
    assert!(matches!(r, Err(MmapError::Failed)));
    assert!(memory.iter().all(|b| *b == 7));
}

#[test]
fn failed_address_wins_over_fitting_memory() {
    let mut memory = vec![0u8; 4096];
    let r: Result<(Arc<MmapArea<BufCustom>>, Vec<BufMmap<BufCustom>>), MmapError> =
        MmapArea::new(2, 2048, MAP_FAILED, &mut memory);
    assert!(matches!(r, Err(MmapError::Failed)));
}

#[test]
fn arena_of_no_slots_has_no_buffers() {
    let mut memory: Vec<u8> = Vec::new();
    let r: Result<(Arc<MmapArea<BufCustom>>, Vec<BufMmap<BufCustom>>), MmapError> =
        MmapArea::new(0, 2048, 4096, &mut memory);
    let (area, bufs) = r.unwrap();
    assert_eq!(area.get_buf_num(), 0);
    assert_eq!(area.get_buf_len(), 2048);
    assert!(bufs.is_empty());
    let region = area.release().unwrap();
    assert_eq!(region.addr, 4096);
    assert_eq!(region.len, 0);
}

#[test]
fn slots_must_hold_the_reserve() {
    assert!(slots_hold_reserve(4, 256));
    assert!(slots_hold_reserve(1024, 2048));
    assert!(slots_hold_reserve(1, usize::MAX));
    assert!(!slots_hold_reserve(4, 255));
    assert!(!slots_hold_reserve(4, 100));
    assert!(!slots_hold_reserve(1, 0));
    assert!(!slots_hold_reserve(usize::MAX, 2));
    // Where there is no slot, no slot is too small.
    assert!(slots_hold_reserve(0, 100));
    assert!(slots_hold_reserve(0, 0));
}

#[test]
fn slots_of_just_the_reserve_have_no_payload() {
    let mut memory = vec![0u8; 4 * 256];
    let r: Result<(Arc<MmapArea<BufCustom>>, Vec<BufMmap<BufCustom>>), MmapError> =
        MmapArea::new(4, 256, 4096, &mut memory);
    let (_area, mut bufs) = r.unwrap();
    assert_eq!(bufs.len(), 4);
    for (i, buf) in bufs.iter().enumerate() {
        assert_eq!(buf.get_addr(), (i * 256) as u64);
        assert_eq!(buf.get_headroom(), AF_XDP_RESERVED as usize);
        assert_eq!(buf.get_len(), 0);
        assert_eq!(buf.get_capacity(), 0);
        assert_eq!(buf.get_data().len(), 0);
        assert_eq!(buf.get_data_with_headroom().len(), 256);
    }
    bufs[1].set_headroom(10);
    assert_eq!(bufs[1].get_capacity(), 246);
    bufs[1].set_len(246);
    assert_eq!(bufs[1].get_data().len(), 246);
}

#[test]
fn no_slots_of_any_size_make_an_empty_arena() {
    let mut memory: Vec<u8> = Vec::new();
    let r: Result<(Arc<MmapArea<BufCustom>>, Vec<BufMmap<BufCustom>>), MmapError> =
        MmapArea::new(0, 100, 4096, &mut memory);
    let (area, bufs) = r.unwrap();
    assert_eq!(area.get_buf_num(), 0);
    assert_eq!(area.get_buf_len(), 100);
    assert!(bufs.is_empty());
}

#[test]
fn release_gives_back_the_whole_mapping() {
    let mut memory = vec![0u8; 1024 * 2048];
    let base = memory.as_ptr() as usize;
    let r: Result<(Arc<MmapArea<BufCustom>>, Vec<BufMmap<BufCustom>>), MmapError> =
        MmapArea::new(1024, 2048, base, &mut memory);
    let (area, _bufs) = r.unwrap();
    let shared = Arc::clone(&area);
    let region = shared.release().unwrap();
    assert_eq!(region.addr, base);
    assert_eq!(region.len, 2_097_152);
    assert_eq!(area.get_ptr(), base);
}
