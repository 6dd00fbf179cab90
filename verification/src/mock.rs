//! A scripted bus transport, for exercising the driver without hardware.
//!
//! The transport answers each transaction from a fixed script and keeps an
//! exec-level record of every transaction that completed, so a caller can
//! inspect exactly what the driver put on the wire.

use vstd::prelude::*;

use crate::bus::{Bus, Transaction};

verus! {

/// The scripted outcome of one upcoming bus transaction.
pub enum MockStep {
    /// The transaction succeeds; a combined write-then-read transaction is
    /// answered with these bytes (a plain write ignores them).
    Respond { resp: Vec<u8> },
    /// The transaction fails with this error code.
    Fail { code: u8 },
}

/// One transaction a [`MockBus`] has completed, held as plain values.
pub enum RecordedTransaction {
    /// A plain write of `data` to the device at 7-bit address `dev`.
    Write { dev: u8, data: Vec<u8> },
    /// A combined transaction: `data` was written to the device at 7-bit
    /// address `dev`, then `count` bytes were read back as `resp`.
    WriteRead { dev: u8, data: Vec<u8>, count: usize, resp: Vec<u8> },
}

/// The ghost transaction a record stands for.
pub open spec fn txn_of(rt: RecordedTransaction) -> Transaction {
    match rt {
        RecordedTransaction::Write { dev, data } => Transaction::Write { dev, data: data@ },
        RecordedTransaction::WriteRead { dev, data, count, resp } => Transaction::WriteRead {
            dev,
            data: data@,
            count: count as nat,
            resp: resp@,
        },
    }
}

/// The ghost log a sequence of records stands for.
pub open spec fn log_of(rs: Seq<RecordedTransaction>) -> Seq<Transaction> {
    Seq::new(rs.len(), |i: int| txn_of(rs[i]))
}

/// A scripted bus transport.
pub struct MockBus {
    /// The scripted outcomes of the upcoming transactions, in order.  A
    /// transaction beyond the script's end fails with error code 0; so does
    /// a combined write-then-read whose scripted response does not have the
    /// requested length.
    pub script: Vec<MockStep>,
    /// How many script entries have been consumed.
    pub pos: usize,
    /// The transactions completed so far, oldest first.
    pub recorded: Vec<RecordedTransaction>,
}

impl MockBus {
    /// A fresh transport that answers its transactions from `script`.
    pub fn new(script: Vec<MockStep>) -> (m: MockBus)
        ensures
            m.log() == Seq::<Transaction>::empty(),
            m.script@ == script@,
            m.pos == 0,
    {
        let m = MockBus { script, pos: 0, recorded: Vec::new() };
        proof {
            assert(m.log() =~= Seq::<Transaction>::empty());
        }
        m
    }
}

/// Copies a byte vector.
fn copy_bytes(v: &Vec<u8>) -> (r: Vec<u8>)
    ensures
        r@ == v@,
{
    let mut r: Vec<u8> = Vec::new();
    let mut i: usize = 0;
    while i < v.len()
        invariant
            i <= v.len(),
            r@ == v@.subrange(0, i as int),
        decreases v.len() - i,
    {
        let b = v[i];
        r.push(b);
        i = i + 1;
        proof {
            assert(r@ =~= v@.subrange(0, i as int));
        }
    }
    proof {
        assert(v@.subrange(0, v@.len() as int) =~= v@);
    }
    r
}

impl Bus for MockBus {
    type Error = u8;

    open spec fn log(&self) -> Seq<Transaction> {
        log_of(self.recorded@)
    }

    fn write(&mut self, dev: u8, data: &Vec<u8>) -> (r: Result<(), u8>) {
        if self.pos >= self.script.len() {
            return Err(0);
        }
        let failed: Option<u8> = match &self.script[self.pos] {
            MockStep::Respond { .. } => None,
            MockStep::Fail { code } => Some(*code),
        };
        self.pos = self.pos + 1;
        match failed {
            Some(code) => Err(code),
            None => {
                let rec = RecordedTransaction::Write { dev, data: copy_bytes(data) };
                self.recorded.push(rec);
                proof {
                    assert(self.log() =~= old(self).log().push(
                        Transaction::Write { dev, data: data@ },
                    ));
                }
                Ok(())
            },
        }
    }

    fn write_read(&mut self, dev: u8, data: &Vec<u8>, count: usize) -> (r: Result<Vec<u8>, u8>) {
        if self.pos >= self.script.len() {
            return Err(0);
        }
        let outcome: Result<Vec<u8>, u8> = match &self.script[self.pos] {
            MockStep::Respond { resp } => Ok(copy_bytes(resp)),
            MockStep::Fail { code } => Err(*code),
        };
        self.pos = self.pos + 1;
        match outcome {
            Err(code) => Err(code),
            Ok(resp) => {
                if resp.len() != count {
                    return Err(0);
                }
                let rec = RecordedTransaction::WriteRead {
                    dev,
                    data: copy_bytes(data),
                    count,
                    resp: copy_bytes(&resp),
                };
                self.recorded.push(rec);
                proof {
                    assert(self.log() =~= old(self).log().push(
                        Transaction::WriteRead {
                            dev,
                            data: data@,
                            count: count as nat,
                            resp: resp@,
                        },
                    ));
                }
                Ok(resp)
            },
        }
    }
}

} // verus!
