use eth_dma::dma::buffer::Buffer;
use eth_dma::dma::fence::FenceBarrier;
use eth_dma::dma::rx::descriptor::{
    RxDescriptor, RXDESC_3_BUF1V, RXDESC_3_CTXT, RXDESC_3_ES, RXDESC_3_FD, RXDESC_3_IOC,
    RXDESC_3_LD, RXDESC_3_OWN,
};
use eth_dma::dma::rx::RxRing;
use eth_dma::dma::tx::descriptor::{TxDescriptor, TXDESC_3_ES, TXDESC_3_LD, TXDESC_3_TTSS};
use eth_dma::dma::tx::{TxRing, TxState};
use eth_dma::dma::{EthernetDma, InitError, PacketId, RxError, TxError};
use eth_dma::ptp::{Timestamp, TimestampMode};

const SIZE: usize = 64;
const RX_BASE: u32 = 0x2000_0000;
const TX_BASE: u32 = 0x3000_0000;

fn buffers(base: u32, count: usize, size: usize) -> Vec<Buffer> {
    (0..count)
        .map(|i| Buffer::new(base + (i * size) as u32, size))
        .collect()
}

fn rx_ring(count: usize, mode: TimestampMode) -> RxRing<FenceBarrier> {
    RxRing::new(
        vec![RxDescriptor::new(); count],
        buffers(RX_BASE, count, SIZE),
        mode,
        FenceBarrier,
    )
    .ok()
    .unwrap()
}

fn tx_ring(count: usize, mode: TimestampMode) -> TxRing<FenceBarrier> {
    TxRing::new(
        vec![TxDescriptor::new(); count],
        buffers(TX_BASE, count, SIZE),
        mode,
        FenceBarrier,
    )
    .ok()
    .unwrap()
}

fn payload(seed: u8, len: usize) -> Vec<u8> {
    (0..len).map(|i| seed.wrapping_add(i as u8)).collect()
}

fn rx_words(ring: &RxRing<FenceBarrier>, slot: usize) -> [u32; 4] {
    let raw = ring.descriptor(slot).raw();
    [raw.read(0), raw.read(1), raw.read(2), raw.read(3)]
}

fn all_tx_bytes(ring: &TxRing<FenceBarrier>) -> Vec<Vec<u8>> {
    (0..ring.capacity()).map(|i| ring.buffer(i).to_vec()).collect()
}

fn whole_frame(len: usize) -> [u32; 4] {
    [0, 0, 0, RXDESC_3_FD | RXDESC_3_LD | len as u32]
}

#[test]
fn rx_ring_starts_with_every_slot_armed() {
    let ring = rx_ring(4, TimestampMode::Disabled);
    assert_eq!(ring.capacity(), 4);
    assert_eq!(ring.buffer_size(), SIZE);
    assert_eq!(ring.next_slot(), 0);
    assert_eq!(ring.held(), None);
    for slot in 0..4 {
        assert!(ring.descriptor(slot).is_owned());
        assert_eq!(
            rx_words(&ring, slot),
            [
                RX_BASE + (slot * SIZE) as u32,
                0,
                0,
                RXDESC_3_OWN | RXDESC_3_IOC | RXDESC_3_BUF1V
            ]
        );
        assert_eq!(ring.buffer(slot), &[0u8; SIZE][..]);
    }
}

#[test]
fn rx_ring_resets_the_descriptors_it_is_given() {
    let mut used = RxDescriptor::new();
    used.setup(0x1234_0000, &FenceBarrier);
    assert!(used.write_back([1, 2, 3, RXDESC_3_FD | RXDESC_3_LD | 9]));
    let ring = RxRing::new(
        vec![used, RxDescriptor::new()],
        buffers(RX_BASE, 2, SIZE),
        TimestampMode::Disabled,
        FenceBarrier,
    )
    .ok()
    .unwrap();
    assert_eq!(
        rx_words(&ring, 0),
        [RX_BASE, 0, 0, RXDESC_3_OWN | RXDESC_3_IOC | RXDESC_3_BUF1V]
    );
}

#[test]
fn rx_ring_refuses_bad_parts() {
    let make = |descs: usize, bufs: Vec<Buffer>| {
        RxRing::new(
            vec![RxDescriptor::new(); descs],
            bufs,
            TimestampMode::Disabled,
            FenceBarrier,
        )
        .err()
    };
    assert_eq!(make(3, buffers(RX_BASE, 4, SIZE)), Some(InitError::Mismatch));
    assert_eq!(make(0, buffers(RX_BASE, 1, SIZE)), Some(InitError::Mismatch));
    assert_eq!(make(0, Vec::new()), Some(InitError::TooFewSlots));
    assert_eq!(make(1, buffers(RX_BASE, 1, SIZE)), Some(InitError::TooFewSlots));
    assert_eq!(make(2, buffers(RX_BASE, 2, 0)), Some(InitError::BufferSize));
    assert_eq!(make(2, buffers(RX_BASE, 2, 0x4000)), Some(InitError::BufferSize));
    let uneven = vec![Buffer::new(RX_BASE, 64), Buffer::new(RX_BASE + 64, 32)];
    assert_eq!(make(2, uneven), Some(InitError::BufferSize));
    assert_eq!(make(2, buffers(RX_BASE, 2, 0x3FFF)), None);
    assert_eq!(make(2, buffers(RX_BASE, 2, 1)), None);
}

#[test]
fn tx_ring_refuses_bad_parts() {
    let make = |descs: usize, bufs: Vec<Buffer>| {
        TxRing::new(
            vec![TxDescriptor::new(); descs],
            bufs,
            TimestampMode::Disabled,
            FenceBarrier,
        )
        .err()
    };
    assert_eq!(make(3, buffers(TX_BASE, 4, SIZE)), Some(InitError::Mismatch));
    assert_eq!(make(0, Vec::new()), Some(InitError::TooFewSlots));
    assert_eq!(make(2, buffers(TX_BASE, 2, 0)), Some(InitError::BufferSize));
    assert_eq!(make(2, buffers(TX_BASE, 2, 0x4000)), Some(InitError::BufferSize));
    let uneven = vec![Buffer::new(TX_BASE, 64), Buffer::new(TX_BASE + 64, 65)];
    assert_eq!(make(2, uneven), Some(InitError::BufferSize));
    assert_eq!(make(1, buffers(TX_BASE, 1, SIZE)), None);
}

#[test]
fn tx_ring_starts_empty() {
    let ring = tx_ring(4, TimestampMode::Disabled);
    assert_eq!(ring.capacity(), 4);
    assert_eq!(ring.buffer_size(), SIZE);
    assert_eq!(ring.in_flight(), 0);
    assert!(!ring.is_full());
    assert_eq!(ring.next_submit(), 0);
    assert_eq!(ring.next_reclaim(), 0);
    assert_eq!(ring.tx_state(), TxState { capacity: 4, in_flight: 0 });
    for slot in 0..4 {
        assert!(!ring.descriptor(slot).is_owned());
    }
}

#[test]
fn recv_next_would_block_again_and_again() {
    let mut ring = rx_ring(4, TimestampMode::LastSegment);
    let words: Vec<[u32; 4]> = (0..4).map(|slot| rx_words(&ring, slot)).collect();
    for round in 0..5 {
        assert_eq!(
            ring.recv_next(Some(PacketId(round))).err(),
            Some(RxError::WouldBlock)
        );
        assert_eq!(ring.next_slot(), 0);
        assert_eq!(ring.held(), None);
        for slot in 0..4 {
            assert_eq!(rx_words(&ring, slot), words[slot]);
            assert_eq!(ring.descriptor(slot).packet_id(), None);
            assert_eq!(ring.buffer(slot), &[0u8; SIZE][..]);
        }
    }
}

#[test]
fn recv_next_looks_under_the_cursor_only() {
    let mut ring = rx_ring(4, TimestampMode::Disabled);
    let late = payload(1, 20);
    assert!(ring.deliver(1, &late, whole_frame(20)));
    assert_eq!(ring.recv_next(None).err(), Some(RxError::WouldBlock));
    assert_eq!(ring.next_slot(), 0);
    let early = payload(9, 30);
    assert!(ring.deliver(0, &early, whole_frame(30)));
    assert_eq!(ring.recv_next(None).ok().unwrap().data, &early[..]);
    assert_eq!(ring.recv_next(None).ok().unwrap().data, &late[..]);
    assert_eq!(ring.next_slot(), 2);
}

#[test]
fn recv_next_lends_the_frame_and_rearms_the_slot_before() {
    let mut ring = rx_ring(4, TimestampMode::LastSegment);
    let first = payload(3, 42);
    let second = payload(200, 7);
    assert!(ring.deliver(0, &first, [0, 10, 20, RXDESC_3_FD | RXDESC_3_LD | 42]));
    assert!(ring.deliver(1, &second, [0, 11, 21, RXDESC_3_FD | RXDESC_3_LD | 7]));
    {
        let frame = ring.recv_next(Some(PacketId(1))).ok().unwrap();
        assert_eq!(frame.data, &first[..]);
        assert_eq!(frame.data.len(), 42);
        assert_eq!(frame.packet_id, Some(PacketId(1)));
        assert_eq!(frame.timestamp, Some(Timestamp::from_parts(10, 20)));
    }
    assert_eq!(ring.held(), Some(0));
    assert_eq!(ring.next_slot(), 1);
    assert!(!ring.descriptor(0).is_owned());
    assert_eq!(ring.descriptor(0).packet_id(), Some(&PacketId(1)));
    {
        let frame = ring.recv_next(Some(PacketId(2))).ok().unwrap();
        assert_eq!(frame.data, &second[..]);
        assert_eq!(frame.packet_id, Some(PacketId(2)));
        assert_eq!(frame.timestamp, Some(Timestamp::from_parts(11, 21)));
    }
    assert_eq!(ring.held(), Some(1));
    assert_eq!(ring.next_slot(), 2);
    assert!(ring.descriptor(0).is_owned());
    assert_eq!(ring.descriptor(0).packet_id(), None);
    assert_eq!(rx_words(&ring, 0)[0], RX_BASE);
    assert!(!ring.descriptor(1).is_owned());
}

#[test]
fn recv_next_that_blocks_keeps_the_lent_slot() {
    let mut ring = rx_ring(2, TimestampMode::Disabled);
    assert!(ring.deliver(0, &payload(1, 8), whole_frame(8)));
    assert!(ring.recv_next(None).is_ok());
    assert_eq!(ring.recv_next(None).err(), Some(RxError::WouldBlock));
    assert_eq!(ring.held(), Some(0));
    assert!(!ring.descriptor(0).is_owned());
    assert_eq!(ring.next_slot(), 1);
}

#[test]
fn recv_next_wraps_around() {
    let mut ring = rx_ring(2, TimestampMode::Disabled);
    for round in 0..5u8 {
        let slot = (round % 2) as usize;
        assert_eq!(ring.next_slot(), slot);
        let bytes = payload(round, 10 + round as usize);
        assert!(ring.deliver(slot, &bytes, whole_frame(bytes.len())));
        assert_eq!(ring.recv_next(None).ok().unwrap().data, &bytes[..]);
        assert_eq!(ring.held(), Some(slot));
        assert!(ring.descriptor(1 - slot).is_owned());
    }
}

#[test]
fn recv_next_drops_and_rearms_what_is_not_a_whole_frame() {
    for status in [
        RXDESC_3_FD | RXDESC_3_LD | RXDESC_3_ES | 42,
        RXDESC_3_FD | 42,
        RXDESC_3_LD | 42,
        RXDESC_3_FD | RXDESC_3_LD | RXDESC_3_CTXT,
    ] {
        let mut ring = rx_ring(4, TimestampMode::LastSegment);
        assert!(ring.deliver(0, &payload(0, 42), [0, 0, 0, status]));
        assert_eq!(
            ring.recv_next(Some(PacketId(1))).err(),
            Some(RxError::Truncated)
        );
        assert!(ring.descriptor(0).is_owned());
        assert_eq!(rx_words(&ring, 0)[0], RX_BASE);
        assert_eq!(ring.descriptor(0).packet_id(), None);
        assert_eq!(ring.descriptor(0).timestamp(), None);
        assert_eq!(ring.next_slot(), 1);
        assert_eq!(ring.held(), None);
    }
}

#[test]
fn recv_next_rearms_the_lent_slot_when_it_drops_a_frame() {
    let mut ring = rx_ring(3, TimestampMode::Disabled);
    assert!(ring.deliver(0, &payload(0, 8), whole_frame(8)));
    assert!(ring.deliver(1, &payload(0, 8), [0, 0, 0, RXDESC_3_FD | 8]));
    assert!(ring.recv_next(None).is_ok());
    assert_eq!(ring.recv_next(None).err(), Some(RxError::Truncated));
    assert_eq!(ring.held(), None);
    assert!(ring.descriptor(0).is_owned());
    assert!(ring.descriptor(1).is_owned());
    assert_eq!(ring.next_slot(), 2);
}

#[test]
fn recv_next_never_shows_more_than_the_buffer_holds() {
    let mut ring = rx_ring(2, TimestampMode::Disabled);
    let bytes = payload(5, SIZE);
    assert!(ring.deliver(0, &bytes, whole_frame(1000)));
    let frame = ring.recv_next(None).ok().unwrap();
    assert_eq!(frame.data, &bytes[..]);
    assert_eq!(frame.data.len(), SIZE);
}

#[test]
fn deliver_acts_only_on_slots_of_the_engine() {
    let mut ring = rx_ring(2, TimestampMode::Disabled);
    assert!(!ring.deliver(2, &payload(0, 8), whole_frame(8)));
    assert!(!ring.deliver(0, &payload(0, SIZE + 1), whole_frame(8)));
    assert!(ring.descriptor(0).is_owned());
    assert_eq!(ring.buffer(0), &[0u8; SIZE][..]);
    assert!(ring.deliver(0, &payload(1, 8), whole_frame(8)));
    let lent = ring.buffer(0).to_vec();
    assert!(!ring.deliver(0, &payload(50, 8), whole_frame(8)));
    assert!(ring.recv_next(None).is_ok());
    assert!(!ring.deliver(0, &payload(50, 8), whole_frame(8)));
    assert_eq!(ring.buffer(0), &lent[..]);
    assert_eq!(&lent[..8], &payload(1, 8)[..]);
    assert_eq!(&lent[8..], &[0u8; SIZE - 8][..]);
}

#[test]
fn send_copies_the_frame_and_hands_the_slot_over() {
    let mut ring = tx_ring(4, TimestampMode::Disabled);
    let bytes = payload(7, 42);
    assert_eq!(ring.send(Some(PacketId(1)), &bytes), Ok(()));
    assert_eq!(ring.in_flight(), 1);
    assert_eq!(ring.next_submit(), 1);
    assert_eq!(ring.next_reclaim(), 0);
    assert!(ring.descriptor(0).is_owned());
    assert_eq!(ring.descriptor(0).packet_id(), Some(&PacketId(1)));
    let raw = ring.descriptor(0).raw();
    assert_eq!(
        [raw.read(0), raw.read(1), raw.read(2), raw.read(3)],
        [TX_BASE, 0, 0x8000_002A, 0xB000_002A]
    );
    assert_eq!(&ring.buffer(0)[..42], &bytes[..]);
    assert_eq!(&ring.buffer(0)[42..], &[0u8; SIZE - 42][..]);
    assert_eq!(ring.buffer(1), &[0u8; SIZE][..]);
}

#[test]
fn send_takes_an_empty_and_a_full_length_frame() {
    let mut ring = tx_ring(2, TimestampMode::Disabled);
    assert_eq!(ring.send(None, &[]), Ok(()));
    assert_eq!(ring.buffer(0), &[0u8; SIZE][..]);
    let bytes = payload(1, SIZE);
    assert_eq!(ring.send(None, &bytes), Ok(()));
    assert_eq!(ring.buffer(1), &bytes[..]);
}

#[test]
fn send_on_a_full_ring_would_block_and_changes_nothing() {
    for capacity in 1..6usize {
        let mut ring = tx_ring(capacity, TimestampMode::Disabled);
        for i in 0..capacity {
            assert!(!ring.is_full());
            assert_eq!(ring.send(Some(PacketId(i as u32)), &payload(i as u8, 10 + i)), Ok(()));
        }
        assert!(ring.is_full());
        assert_eq!(ring.in_flight(), capacity);
        let bytes = all_tx_bytes(&ring);
        let tags: Vec<Option<PacketId>> = (0..capacity)
            .map(|i| ring.descriptor(i).packet_id().copied())
            .collect();
        assert_eq!(
            ring.send(Some(PacketId(99)), &payload(0xEE, SIZE)),
            Err(TxError::WouldBlock)
        );
        assert_eq!(all_tx_bytes(&ring), bytes);
        assert_eq!(ring.in_flight(), capacity);
        assert_eq!(ring.next_submit(), 0);
        for i in 0..capacity {
            assert_eq!(ring.descriptor(i).packet_id().copied(), tags[i]);
            assert!(ring.descriptor(i).is_owned());
        }
    }
}

#[test]
fn send_on_a_full_ring_would_block_even_after_the_engine_is_done() {
    let mut ring = tx_ring(2, TimestampMode::Disabled);
    assert_eq!(ring.send(None, &payload(1, 8)), Ok(()));
    assert_eq!(ring.send(None, &payload(2, 8)), Ok(()));
    assert!(ring.write_back(0, [0, 0, 0, TXDESC_3_LD]));
    let bytes = all_tx_bytes(&ring);
    assert_eq!(ring.send(None, &payload(3, 8)), Err(TxError::WouldBlock));
    assert_eq!(all_tx_bytes(&ring), bytes);
    assert_eq!(ring.reclaim_next(None), Ok(None));
    assert_eq!(ring.send(None, &payload(3, 8)), Ok(()));
    assert_eq!(&ring.buffer(0)[..8], &payload(3, 8)[..]);
}

#[test]
fn reclaim_next_would_block_on_an_empty_ring() {
    let mut ring = tx_ring(2, TimestampMode::Disabled);
    assert_eq!(ring.reclaim_next(None), Err(TxError::WouldBlock));
    assert_eq!(ring.in_flight(), 0);
    assert_eq!(ring.next_reclaim(), 0);
}

#[test]
fn reclaim_next_follows_the_order_of_submission() {
    let mut ring = tx_ring(4, TimestampMode::ValidBit);
    for tag in 1..4u32 {
        assert_eq!(ring.send(Some(PacketId(tag)), &payload(tag as u8, 16)), Ok(()));
    }
    let done = |seconds: u32| [0, seconds, 0, TXDESC_3_LD | TXDESC_3_TTSS];
    assert!(ring.write_back(2, done(30)));
    assert!(ring.write_back(1, done(20)));
    assert_eq!(ring.reclaim_next(Some(PacketId(3))), Err(TxError::WouldBlock));
    assert_eq!(ring.reclaim_next(Some(PacketId(2))), Err(TxError::WouldBlock));
    assert_eq!(ring.in_flight(), 3);
    assert_eq!(ring.next_reclaim(), 0);
    assert!(ring.write_back(0, done(10)));
    assert_eq!(
        ring.reclaim_next(Some(PacketId(1))),
        Ok(Some(Timestamp::from_parts(10, 0)))
    );
    assert_eq!(
        ring.reclaim_next(Some(PacketId(2))),
        Ok(Some(Timestamp::from_parts(20, 0)))
    );
    assert_eq!(
        ring.reclaim_next(Some(PacketId(3))),
        Ok(Some(Timestamp::from_parts(30, 0)))
    );
    assert_eq!(ring.reclaim_next(Some(PacketId(3))), Err(TxError::WouldBlock));
    assert_eq!(ring.in_flight(), 0);
    assert_eq!(ring.next_reclaim(), 3);
    assert_eq!(ring.next_submit(), 3);
}

#[test]
fn reclaim_next_reports_an_error_and_frees_the_slot() {
    let mut ring = tx_ring(1, TimestampMode::LastSegment);
    assert_eq!(ring.send(Some(PacketId(1)), &payload(1, 8)), Ok(()));
    assert!(ring.write_back(0, [0, 5, 6, TXDESC_3_LD | TXDESC_3_ES]));
    assert_eq!(ring.reclaim_next(Some(PacketId(1))), Err(TxError::Failed));
    assert_eq!(ring.in_flight(), 0);
    assert_eq!(ring.send(Some(PacketId(2)), &payload(2, 8)), Ok(()));
    assert!(!ring.descriptor(0).has_error());
}

#[test]
fn tx_write_back_acts_only_on_slots_of_the_engine() {
    let mut ring = tx_ring(2, TimestampMode::Disabled);
    assert!(!ring.write_back(0, [1, 2, 3, 4]));
    assert!(!ring.write_back(2, [1, 2, 3, 4]));
    assert_eq!(ring.send(None, &payload(1, 8)), Ok(()));
    assert!(!ring.write_back(1, [1, 2, 3, 4]));
    assert!(ring.write_back(0, [1, 2, 3, 4]));
    assert!(!ring.write_back(0, [5, 6, 7, 8]));
    let raw = ring.descriptor(0).raw();
    assert_eq!([raw.read(0), raw.read(1), raw.read(2), raw.read(3)], [1, 2, 3, 4]);
}

#[test]
fn tx_ring_wraps_around() {
    let mut ring = tx_ring(3, TimestampMode::Disabled);
    for round in 0..10u8 {
        let slot = (round % 3) as usize;
        assert_eq!(ring.next_submit(), slot);
        assert_eq!(ring.send(None, &payload(round, 12)), Ok(()));
        assert_eq!(&ring.buffer(slot)[..12], &payload(round, 12)[..]);
        assert!(ring.write_back(slot, [0, 0, 0, TXDESC_3_LD]));
        assert_eq!(ring.reclaim_next(None), Ok(None));
        assert_eq!(ring.tx_state(), TxState { capacity: 3, in_flight: 0 });
    }
}

fn engine(capacity: usize) -> EthernetDma<FenceBarrier> {
    EthernetDma::new(
        rx_ring(capacity, TimestampMode::Disabled),
        tx_ring(capacity, TimestampMode::Disabled),
    )
}

#[test]
fn one_frame_goes_out_and_comes_in() {
    let mut dma = engine(4);
    let sent = payload(0x40, 42);
    assert_eq!(dma.send(Some(PacketId(1)), &sent), Ok(()));
    let on_the_wire = dma.tx().buffer(0)[..42].to_vec();
    assert!(dma.write_back(0, [0, 0, 0, TXDESC_3_LD]));
    assert!(dma.deliver(0, &on_the_wire, [0, 0, 0, RXDESC_3_FD | RXDESC_3_LD | 42]));
    let frame = dma.recv_next(Some(PacketId(2))).ok().unwrap();
    assert_eq!(frame.data, &sent[..]);
    assert_eq!(frame.data.len(), 42);
    assert_eq!(frame.packet_id, Some(PacketId(2)));
    assert_eq!(dma.rx().descriptor(0).frame_length(), 42);
}

#[test]
fn an_error_drops_the_frame_and_rearms_the_slot() {
    let mut dma = engine(4);
    assert!(dma.deliver(
        0,
        &payload(0x40, 42),
        [0, 0, 0, RXDESC_3_FD | RXDESC_3_LD | RXDESC_3_ES | 42]
    ));
    assert!(!dma.rx().descriptor(0).is_owned());
    assert_eq!(dma.recv_next(None).err(), Some(RxError::Truncated));
    assert!(dma.rx().descriptor(0).is_owned());
    let raw = dma.rx().descriptor(0).raw();
    assert_eq!(raw.read(3) & RXDESC_3_OWN, RXDESC_3_OWN);
}

#[test]
fn a_full_ring_blocks_until_a_slot_is_reclaimed() {
    let mut dma = engine(4);
    for i in 0..4u8 {
        assert_eq!(dma.send(Some(PacketId(i as u32)), &payload(i, 20)), Ok(()));
    }
    assert_eq!(dma.tx_state(), TxState { capacity: 4, in_flight: 4 });
    assert_eq!(dma.send(Some(PacketId(4)), &payload(4, 20)), Err(TxError::WouldBlock));
    assert_eq!(dma.reclaim_next(Some(PacketId(0))), Err(TxError::WouldBlock));
    assert!(dma.write_back(0, [0, 0, 0, TXDESC_3_LD]));
    assert_eq!(dma.reclaim_next(Some(PacketId(0))), Ok(None));
    assert_eq!(dma.tx_state(), TxState { capacity: 4, in_flight: 3 });
    assert_eq!(dma.send(Some(PacketId(4)), &payload(4, 20)), Ok(()));
    assert_eq!(&dma.tx().buffer(0)[..20], &payload(4, 20)[..]);
    assert_eq!(dma.tx_state(), TxState { capacity: 4, in_flight: 4 });
    assert_eq!(dma.send(Some(PacketId(5)), &payload(5, 20)), Err(TxError::WouldBlock));
}

#[test]
fn engine_keeps_the_two_directions_apart() {
    let mut dma = engine(2);
    assert_eq!(dma.send(None, &payload(1, 8)), Ok(()));
    assert_eq!(dma.rx().next_slot(), 0);
    assert!(dma.rx().descriptor(0).is_owned());
    assert!(dma.deliver(0, &payload(2, 8), [0, 0, 0, RXDESC_3_FD | RXDESC_3_LD | 8]));
    assert!(dma.recv_next(None).is_ok());
    assert_eq!(dma.tx_state(), TxState { capacity: 2, in_flight: 1 });
    assert_eq!(dma.tx().next_submit(), 1);
    assert_eq!(&dma.tx().buffer(0)[..8], &payload(1, 8)[..]);
}
