//! The two-wire bus transport the driver runs on.
//!
//! The transport offers exactly two primitives: write a few bytes to a device,
//! and write a few bytes then read a fixed number of bytes back in one
//! combined transaction.  An implementation carries a ghost log of the
//! transactions it has completed, so that every driver operation can state
//! precisely which bytes it put on the wire and how it used what came back.

use vstd::prelude::*;

verus! {

/// One completed bus transaction, as recorded in a transport's ghost log.
pub enum Transaction {
    /// A plain write of `data` to the device at 7-bit address `dev`.
    Write { dev: u8, data: Seq<u8> },
    /// A combined transaction against the device at 7-bit address `dev`:
    /// `data` was written, then `count` bytes were read back as `resp`.
    WriteRead { dev: u8, data: Seq<u8>, count: nat, resp: Seq<u8> },
}

/// A blocking two-wire bus transport.
///
/// Transactions block until the transport reports success or failure; a failed
/// transaction is not recorded in the log and its error is handed to the
/// caller unchanged.  The driver owns the transport exclusively, so no other
/// actor can interleave traffic between two of its transactions.
pub trait Bus: Sized {
    /// The transport-defined error of a failed transaction.
    type Error;

    /// The transactions this transport has completed, oldest first.
    ///
    /// The default stands for a transport whose history is not tracked; a
    /// transport that is reasoned about overrides it.
    open spec fn log(&self) -> Seq<Transaction> {
        Seq::empty()
    }

    /// Writes `data` to the device at 7-bit address `dev` in one transaction.
    fn write(&mut self, dev: u8, data: &Vec<u8>) -> (r: Result<(), Self::Error>)
        ensures
            r matches Ok(_) ==> final(self).log() == old(self).log().push(
                Transaction::Write { dev, data: data@ },
            ),
            r matches Err(_) ==> final(self).log() == old(self).log(),
    ;

    /// Writes `data` to the device at 7-bit address `dev`, then reads exactly
    /// `count` bytes back, all in one combined transaction.
    fn write_read(&mut self, dev: u8, data: &Vec<u8>, count: usize) -> (r: Result<
        Vec<u8>,
        Self::Error,
    >)
        ensures
            r matches Ok(resp) ==> {
                &&& resp@.len() == count
                &&& final(self).log() == old(self).log().push(
                    Transaction::WriteRead { dev, data: data@, count: count as nat, resp: resp@ },
                )
            },
            r matches Err(_) ==> final(self).log() == old(self).log(),
    ;
}

} // verus!
