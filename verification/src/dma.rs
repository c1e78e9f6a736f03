//! Descriptors, rings and the types they share.

use crate::dma::fence::Barrier;
use crate::dma::rx::{RxFrame, RxRing, RxRingView};
use crate::dma::tx::{TxRing, TxRingView, TxState};
use crate::ptp::Timestamp;
use vstd::prelude::*;

pub mod buffer;
pub mod cursor;
pub mod fence;
pub mod raw_descriptor;
pub mod rx;
pub mod tx;

verus! {

/// A caller's tag for one frame, by which a timestamp read later is matched
/// to the frame it belongs to. Two tags are the same tag when their numbers
/// are equal; the number means nothing else.
#[derive(Clone, Copy, Debug, PartialEq, Eq, Structural)]
pub struct PacketId(pub u32);

/// Why no frame was received.
#[derive(Clone, Copy, Debug, PartialEq, Eq, Structural)]
pub enum RxError {
    /// The engine still holds the descriptor: nothing has arrived yet.
    WouldBlock,
    /// What arrived is not one whole frame in one buffer. It was dropped and
    /// the descriptor handed back to the engine.
    Truncated,
}

/// Why a frame was not sent, or was sent badly.
#[derive(Clone, Copy, Debug, PartialEq, Eq, Structural)]
pub enum TxError {
    /// No slot is free, or the engine has not finished with the descriptor.
    WouldBlock,
    /// The engine finished with the descriptor and flagged an error.
    Failed,
}

/// Why a ring could not be built from the descriptors and buffers given.
#[derive(Clone, Copy, Debug, PartialEq, Eq, Structural)]
pub enum InitError {
    /// There are not as many buffers as descriptors.
    Mismatch,
    /// There are fewer slots than the ring needs.
    TooFewSlots,
    /// A buffer is empty, longer than a descriptor can describe, or not of
    /// the same size as the first.
    BufferSize,
}

/// Both rings of one DMA channel as a value.
pub struct EthernetDmaView {
    /// The receive ring.
    pub rx: RxRingView,
    /// The transmit ring.
    pub tx: TxRingView,
}

impl EthernetDmaView {
    /// Both rings are sound.
    pub open spec fn wf(self) -> bool {
        self.rx.wf() && self.tx.wf()
    }
}

/// One DMA channel: a receive ring and a transmit ring, and the one way in
/// for the code that sends and receives frames. The two directions do not
/// touch each other.
pub struct EthernetDma<B: Barrier> {
    rx: RxRing<B>,
    tx: TxRing<B>,
}

impl<B: Barrier> View for EthernetDma<B> {
    type V = EthernetDmaView;

    closed spec fn view(&self) -> EthernetDmaView {
        EthernetDmaView { rx: self.rx@, tx: self.tx@ }
    }
}

impl<B: Barrier> EthernetDma<B> {
    /// Takes over the two rings.
    pub fn new(rx: RxRing<B>, tx: TxRing<B>) -> (dma: Self)
        ensures
            dma@.rx == rx@,
            dma@.tx == tx@,
    {
        EthernetDma { rx, tx }
    }

    /// Submits one frame on the transmit ring, as [`TxRing::send`] does. The
    /// receive ring is not touched.
    pub fn send(&mut self, packet_id: Option<PacketId>, frame: &[u8]) -> (result: Result<
        (),
        TxError,
    >)
        requires
            old(self)@.wf(),
            frame@.len() <= old(self)@.tx.buffer_size(),
        ensures
            final(self)@.wf(),
            result == old(self)@.tx.send_result(),
            final(self)@.tx == old(self)@.tx.after_send(packet_id, frame@),
            final(self)@.rx == old(self)@.rx,
    {
        self.tx.send(packet_id, frame)
    }

    /// Takes back the oldest frame in flight on the transmit ring, as
    /// [`TxRing::reclaim_next`] does. The receive ring is not touched.
    pub fn reclaim_next(&mut self, packet_id: Option<PacketId>) -> (result: Result<
        Option<Timestamp>,
        TxError,
    >)
        requires
            old(self)@.wf(),
        ensures
            final(self)@.wf(),
            result == old(self)@.tx.reclaim_result(packet_id),
            final(self)@.tx == old(self)@.tx.after_reclaim(),
            final(self)@.rx == old(self)@.rx,
    {
        self.tx.reclaim_next(packet_id)
    }

    /// Looks for the next frame on the receive ring, as
    /// [`RxRing::recv_next`] does. The transmit ring is not touched.
    pub fn recv_next(&mut self, packet_id: Option<PacketId>) -> (result: Result<
        RxFrame<'_>,
        RxError,
    >)
        requires
            old(self)@.wf(),
        ensures
            final(self)@.wf(),
            final(self)@.rx == old(self)@.rx.after_recv(packet_id),
            final(self)@.tx == old(self)@.tx,
            match result {
                Ok(frame) => {
                    &&& old(self)@.rx.recv_result() is Ok
                    &&& frame.data@ == final(self)@.rx.frame(old(self)@.rx.next)
                    &&& frame.packet_id == packet_id
                    &&& frame.timestamp == final(self)@.rx.descriptors[old(self)@.rx.next]
                        .timestamp
                },
                Err(e) => old(self)@.rx.recv_result() == Err::<(), RxError>(e),
            },
    {
        self.rx.recv_next(packet_id)
    }

    /// How full the transmit ring is.
    pub fn tx_state(&self) -> (state: TxState)
        ensures
            state.capacity == self@.tx.capacity(),
            state.in_flight == self@.tx.in_flight,
    {
        self.tx.tx_state()
    }

    /// The receive ring.
    pub fn rx(&self) -> (ring: &RxRing<B>)
        ensures
            ring@ == self@.rx,
    {
        &self.rx
    }

    /// The transmit ring.
    pub fn tx(&self) -> (ring: &TxRing<B>)
        ensures
            ring@ == self@.tx,
    {
        &self.tx
    }

    /// The engine's half of the receive side, as [`RxRing::deliver`] does
    /// it, for a simulation of the engine.
    pub fn deliver(&mut self, slot: usize, frame: &[u8], words: [u32; 4]) -> (accepted: bool)
        requires
            old(self)@.wf(),
        ensures
            final(self)@.wf(),
            accepted == old(self)@.rx.accepts_delivery(slot as int, frame@),
            final(self)@.rx == old(self)@.rx.after_delivery(slot as int, frame@, words@),
            final(self)@.tx == old(self)@.tx,
    {
        self.rx.deliver(slot, frame, words)
    }

    /// The engine's half of the transmit side, as [`TxRing::write_back`]
    /// does it, for a simulation of the engine.
    pub fn write_back(&mut self, slot: usize, words: [u32; 4]) -> (accepted: bool)
        requires
            old(self)@.wf(),
        ensures
            final(self)@.wf(),
            accepted == old(self)@.tx.accepts_write_back(slot as int),
            final(self)@.tx == old(self)@.tx.after_write_back(slot as int, words@),
            final(self)@.rx == old(self)@.rx,
    {
        self.tx.write_back(slot, words)
    }
}

} // verus!
