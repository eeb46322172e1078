use vstd::prelude::*;
use crate::error::ScanError;

verus! {

/// The number of rows the transfer buffer holds; one native fill writes at most this many.
pub const BATCH_CAPACITY: u32 = 4096;

/// One tick: timestamp in nanoseconds, then the bid and ask prices as IEEE-754 bit patterns.
pub type Tick = (u64, u64, u64);

/// Caller-owned staging area that the native fill call writes into, reused for every pull.
///
/// Prices are held as the bit patterns of 64-bit floats, so the native side writes
/// its floats here unchanged.
pub struct TransferBuffer {
    pub timestamps: Vec<u64>,
    pub bid_bits: Vec<u64>,
    pub ask_bits: Vec<u64>,
}

/// An immutable batch of ticks, copied out of the transfer buffer.
#[derive(Clone, Debug, PartialEq, Eq)]
pub struct TickBatch {
    pub timestamps: Vec<u64>,
    pub bid_bits: Vec<u64>,
    pub ask_bits: Vec<u64>,
}

impl TransferBuffer {
    /// Every column is exactly as long as the buffer's capacity.
    pub open spec fn wf(&self) -> bool {
        &&& self.timestamps@.len() == BATCH_CAPACITY as nat
        &&& self.bid_bits@.len() == BATCH_CAPACITY as nat
        &&& self.ask_bits@.len() == BATCH_CAPACITY as nat
    }

    /// The first `n` rows of the buffer, in row order.
    pub open spec fn rows(&self, n: nat) -> Seq<Tick>
        recommends
            n <= BATCH_CAPACITY,
    {
        Seq::new(n, |i: int| (self.timestamps@[i], self.bid_bits@[i], self.ask_bits@[i]))
    }

    /// A zero-filled buffer of full capacity.
    pub fn new() -> (r: TransferBuffer)
        ensures
            r.wf(),
    {
        let mut timestamps: Vec<u64> = Vec::new();
        let mut bid_bits: Vec<u64> = Vec::new();
        let mut ask_bits: Vec<u64> = Vec::new();
        let mut i: u32 = 0;
        while i < BATCH_CAPACITY
            invariant
                i <= BATCH_CAPACITY,
                timestamps@.len() == i,
                bid_bits@.len() == i,
                ask_bits@.len() == i,
            decreases BATCH_CAPACITY - i,
        {
            timestamps.push(0);
            bid_bits.push(0);
            ask_bits.push(0);
            i = i + 1;
        }
        TransferBuffer { timestamps, bid_bits, ask_bits }
    }

    /// Copies the first `row_count` rows out into a fresh batch.
    ///
    /// A row count above the capacity breaks the native contract and is refused,
    /// never truncated.
    pub fn convert(&self, row_count: u32) -> (r: Result<TickBatch, ScanError>)
        requires
            self.wf(),
        ensures
            row_count <= BATCH_CAPACITY <==> r is Ok,
            row_count > BATCH_CAPACITY <==> r == Err::<TickBatch, ScanError>(
                ScanError::CapacityExceeded { rows: row_count },
            ),
            r is Ok ==> r->Ok_0.wf() && r->Ok_0.rows() == self.rows(row_count as nat),
            r is Ok ==> r->Ok_0.timestamps@.len() == row_count && row_count <= BATCH_CAPACITY,
    {
        if row_count > BATCH_CAPACITY {
            return Err(ScanError::CapacityExceeded { rows: row_count });
        }
        let n = row_count as usize;
        let mut timestamps: Vec<u64> = Vec::with_capacity(n);
        let mut bid_bits: Vec<u64> = Vec::with_capacity(n);
        let mut ask_bits: Vec<u64> = Vec::with_capacity(n);
        let mut i: usize = 0;
        while i < n
            invariant
                self.wf(),
                n <= BATCH_CAPACITY,
                i <= n,
                timestamps@ == self.timestamps@.subrange(0, i as int),
                bid_bits@ == self.bid_bits@.subrange(0, i as int),
                ask_bits@ == self.ask_bits@.subrange(0, i as int),
            decreases n - i,
        {
            timestamps.push(self.timestamps[i]);
            bid_bits.push(self.bid_bits[i]);
            ask_bits.push(self.ask_bits[i]);
            i = i + 1;
            proof {
                assert(timestamps@ =~= self.timestamps@.subrange(0, i as int));
                assert(bid_bits@ =~= self.bid_bits@.subrange(0, i as int));
                assert(ask_bits@ =~= self.ask_bits@.subrange(0, i as int));
            }
        }
        let batch = TickBatch { timestamps, bid_bits, ask_bits };
        assert(batch.rows() =~= self.rows(row_count as nat));
        Ok(batch)
    }
}

impl TickBatch {
    /// The three columns have one length.
    pub open spec fn wf(&self) -> bool {
        &&& self.bid_bits@.len() == self.timestamps@.len()
        &&& self.ask_bits@.len() == self.timestamps@.len()
    }

    /// The batch's rows in order.
    pub open spec fn rows(&self) -> Seq<Tick> {
        Seq::new(
            self.timestamps@.len(),
            |i: int| (self.timestamps@[i], self.bid_bits@[i], self.ask_bits@[i]),
        )
    }

    /// The number of rows.
    pub fn len(&self) -> (r: u32)
        requires
            self.timestamps@.len() <= BATCH_CAPACITY,
        ensures
            r == self.timestamps@.len(),
    {
        self.timestamps.len() as u32
    }
}

} // verus!
