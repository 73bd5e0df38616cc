//! The record of what was asked of a bus, and what it means for a command to
//! run its transactions in order and stop at the first that fails.
//!
//! Everything here is ghost: it is what the driver's contracts are written
//! over, and none of it is compiled into the driver.

use vstd::prelude::*;

verus! {

/// One transaction asked of the bus.
pub enum Request {
    /// Send `bytes` to the device at `address`.
    Write { address: u8, bytes: Seq<u8> },
    /// Fetch `len` bytes from the device at `address`.
    Read { address: u8, len: nat },
}

/// The address of the device a request is put to.
pub open spec fn target(request: Request) -> u8 {
    match request {
        Request::Write { address, .. } => address,
        Request::Read { address, .. } => address,
    }
}

/// A request together with what the bus answered: the bytes that came back
/// (none for a write), or the transport's error.
pub struct Exchange<E> {
    pub request: Request,
    pub outcome: Result<Seq<u8>, E>,
}

/// The exchange that a write with the given result stands for.
pub open spec fn sent<E>(address: u8, bytes: Seq<u8>, result: Result<(), E>) -> Exchange<E> {
    Exchange {
        request: Request::Write { address, bytes },
        outcome: match result {
            Ok(_) => Ok(Seq::empty()),
            Err(e) => Err(e),
        },
    }
}

/// The exchange that a read of `len` bytes with the given result stands for.
/// `data` is what the buffer held when the call returned.
pub open spec fn fetched<E>(address: u8, len: nat, data: Seq<u8>, result: Result<(), E>) -> Exchange<
    E,
> {
    Exchange {
        request: Request::Read { address, len },
        outcome: match result {
            Ok(_) => Ok(data),
            Err(e) => Err(e),
        },
    }
}

/// Whether the answer of an exchange has the size its request asks for: a
/// write that succeeded brings nothing back, and a read that succeeded brings
/// back as many bytes as were asked for.
pub open spec fn answered<E>(exchange: Exchange<E>) -> bool {
    exchange.outcome matches Ok(data) ==> data.len() == match exchange.request {
        Request::Write { .. } => 0,
        Request::Read { len, .. } => len,
    }
}

/// `after` is `before` with further exchanges behind it.
pub open spec fn continues<E>(before: Seq<Exchange<E>>, after: Seq<Exchange<E>>) -> bool {
    before.is_prefix_of(after)
}

/// The exchanges that `after` holds behind those of `before`.
pub open spec fn added<E>(before: Seq<Exchange<E>>, after: Seq<Exchange<E>>) -> Seq<Exchange<E>> {
    after.skip(before.len() as int)
}

/// `done` is a run of `plan`: it answers the requests of `plan` in order,
/// starting with the first, and it goes on to the next request exactly when
/// the one before succeeded. So a run ends either with the last request of
/// the plan or with the first exchange that failed.
pub open spec fn follows<E>(done: Seq<Exchange<E>>, plan: Seq<Request>) -> bool {
    &&& 0 < done.len() <= plan.len()
    &&& forall|i: int| 0 <= i < done.len() ==> (#[trigger] done[i]).request == plan[i]
    &&& forall|i: int| 0 <= i < done.len() ==> answered(#[trigger] done[i])
    &&& forall|i: int| 0 <= i < done.len() - 1 ==> (#[trigger] done[i]).outcome is Ok
    &&& done.len() < plan.len() ==> done.last().outcome is Err
}

/// Whether a run went through: its last exchange succeeded.
pub open spec fn completed<E>(done: Seq<Exchange<E>>) -> bool {
    done.len() > 0 && done.last().outcome is Ok
}

} // verus!
