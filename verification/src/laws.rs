//! What the contracts of the driver add up to.
//!
//! The contracts speak of plans and runs. The laws here say how a run ends,
//! and spell out, in bytes, what a run of each larger command holds.

use crate::device::Error;
use crate::device::{color_plan, probe_plan, reset_plan, settings_plan, toggle_plan};
use crate::device::{observed, reading, verdict};
use crate::history::{completed, follows, Exchange, Request};
use crate::registers::{lemma_color_frame_bytes, lemma_settings_frame_bytes, lemma_status_bits};
use crate::registers::{lemma_settings_read_back, BIT_ENABLE, BIT_SHDN, BRIGHTNESS_OFF};
use vstd::prelude::*;

verus! {

/// The first failure ends a run. An exchange of a run that failed is the last
/// of the run, and the run reports its error.
pub proof fn lemma_first_failure_ends_run<E>(done: Seq<Exchange<E>>, plan: Seq<Request>, i: int)
    requires
        follows(done, plan),
        0 <= i < done.len(),
        done[i].outcome is Err,
    ensures
        i == done.len() - 1,
        verdict(done) == Err::<(), Error<E>>(Error::Comm(done[i].outcome->Err_0)),
{
}

/// A run succeeds exactly when it made every request of its plan and each
/// one succeeded.
pub proof fn lemma_success_is_complete<E>(done: Seq<Exchange<E>>, plan: Seq<Request>)
    requires
        follows(done, plan),
    ensures
        verdict(done) is Ok <==> completed(done),
        verdict(done) is Ok <==> done.len() == plan.len() && forall|i: int|
            0 <= i < done.len() ==> (#[trigger] done[i]).outcome is Ok,
{
}

/// Two runs of one plan that got the same answers are the same run: what a
/// command asks of the bus depends on nothing but its plan and on what the
/// bus answered so far.
pub proof fn lemma_run_is_determined<E>(
    one: Seq<Exchange<E>>,
    other: Seq<Exchange<E>>,
    plan: Seq<Request>,
)
    requires
        follows(one, plan),
        follows(other, plan),
        forall|i: int|
            0 <= i < one.len() && i < other.len() ==> (#[trigger] one[i]).outcome == other[i].outcome,
    ensures
        one == other,
{
    if one.len() < other.len() {
        assert(one[one.len() - 1].outcome == other[one.len() - 1].outcome);
    } else if other.len() < one.len() {
        assert(one[other.len() - 1].outcome == other[other.len() - 1].outcome);
    } else {
        assert forall|i: int| 0 <= i < one.len() implies one[i] == other[i] by {
            assert(one[i].outcome == other[i].outcome);
            assert(one[i].request == plan[i]);
            assert(other[i].request == plan[i]);
        }
        assert(one =~= other);
    }
}

/// A reset is a state query, then turning the output off, then white light
/// at the level of darkness: its plan is the plans of the three, joined.
pub proof fn lemma_reset_is_query_disable_darken(address: u8)
    ensures
        reset_plan(address) == probe_plan(address) + settings_plan(address, false) + color_plan(
            address,
            BRIGHTNESS_OFF,
            BRIGHTNESS_OFF,
            BRIGHTNESS_OFF,
        ),
{
    assert(reset_plan(address) =~= probe_plan(address) + settings_plan(address, false)
        + color_plan(address, BRIGHTNESS_OFF, BRIGHTNESS_OFF, BRIGHTNESS_OFF));
}

/// A reset asks up to three things of the bus, in this order: a read of two
/// bytes; a write of `[0x84, 0x01]`, which turns the output off; a write of
/// `[0x01, 0, 0, 0]`, which sets all channels to zero. It asks the next only
/// when the one before succeeded, it succeeds exactly when all three did,
/// and otherwise it reports the error of the one that failed.
pub proof fn lemma_reset_run<E>(address: u8, done: Seq<Exchange<E>>)
    requires
        follows(done, reset_plan(address)),
    ensures
        1 <= done.len() <= 3,
        done[0].request == (Request::Read { address, len: 2 }),
        done.len() >= 2 ==> done[0].outcome is Ok && done[1].request == (Request::Write {
            address,
            bytes: seq![0x84u8, 0x01u8],
        }),
        done.len() == 3 ==> done[1].outcome is Ok && done[2].request == (Request::Write {
            address,
            bytes: seq![0x01u8, 0u8, 0u8, 0u8],
        }),
        verdict(done) is Ok <==> done.len() == 3 && done[2].outcome is Ok,
        verdict(done) matches Err(Error::Comm(e)) ==> done.last().outcome == Err::<Seq<u8>, E>(e),
{
    lemma_settings_frame_bytes(false);
    lemma_color_frame_bytes(0, 0, 0);
    assert(0u8 & 0x0f == 0) by (bit_vector);
    if done.len() >= 2 {
        assert(done[1].request == reset_plan(address)[1]);
    }
    if done.len() == 3 {
        assert(done[2].request == reset_plan(address)[2]);
    }
}

/// A toggle reads the state and, when the read succeeded, writes the settings
/// register once: `[0x84, 0x01]` when the read showed the output on,
/// `[0x84, 0x03]` when it showed the output off. So ENABLE in the value
/// written is the negation of the state read, and SHDN is high. When the read
/// failed, nothing is written.
pub proof fn lemma_toggle_run<E>(address: u8, done: Seq<Exchange<E>>)
    requires
        follows(done, toggle_plan(address, observed(done.first()))),
    ensures
        1 <= done.len() <= 2,
        done[0].request == (Request::Read { address, len: 2 }),
        done.len() == 2 <==> done[0].outcome is Ok,
        done.len() == 2 ==> done[1].request == (Request::Write {
            address,
            bytes: seq![0x84u8, if observed(done[0]) { 0x01u8 } else { 0x03u8 }],
        }),
        done.len() == 2 ==> (done[1].request matches Request::Write { bytes, .. } && (bytes[1]
            & BIT_ENABLE == BIT_ENABLE) == !observed(done[0]) && bytes[1] & BIT_SHDN == BIT_SHDN),
{
    let enabled = observed(done.first());
    lemma_settings_frame_bytes(!enabled);
    if done.len() == 2 {
        assert(done[1].request == toggle_plan(address, enabled)[1]);
    }
}

/// Where the state read has SHDN high, as the chip has it after every write
/// of this driver, the ENABLE bit read is the output state by itself, and
/// the ENABLE bit that the toggle writes is its negation.
pub proof fn lemma_toggle_negates_enable_bit<E>(address: u8, done: Seq<Exchange<E>>)
    requires
        follows(done, toggle_plan(address, observed(done.first()))),
        done.len() == 2,
        (done[0].outcome->Ok_0[0] >> 4) & BIT_SHDN == BIT_SHDN,
    ensures
        observed(done[0]) == ((done[0].outcome->Ok_0[0] >> 4) & BIT_ENABLE == BIT_ENABLE),
        (done[1].request->bytes[1] & BIT_ENABLE == BIT_ENABLE) == !((done[0].outcome->Ok_0[0] >> 4)
            & BIT_ENABLE == BIT_ENABLE),
{
    lemma_toggle_run(address, done);
    lemma_status_bits(done[0].outcome->Ok_0[0]);
}

/// A toggle that got through its read is a state query followed by setting
/// the opposite of what the query reports: its plan is their two plans
/// joined, the first exchange of its run is a run of the query, and the
/// second is a run of the setting.
pub proof fn lemma_toggle_is_query_then_set<E>(address: u8, done: Seq<Exchange<E>>)
    requires
        follows(done, toggle_plan(address, observed(done.first()))),
        done.len() == 2,
    ensures
        toggle_plan(address, observed(done.first())) == probe_plan(address) + settings_plan(
            address,
            !observed(done.first()),
        ),
        follows(done.take(1), probe_plan(address)),
        (reading(done.take(1)) matches Ok(enabled) && follows(
            done.skip(1),
            settings_plan(address, !enabled),
        )),
{
    let enabled = observed(done.first());
    assert(toggle_plan(address, enabled) =~= probe_plan(address) + settings_plan(
        address,
        !enabled,
    ));
    assert(done.take(1).last() == done[0]);
    assert(done.take(1)[0].request == toggle_plan(address, enabled)[0]);
    assert(done.skip(1)[0].request == toggle_plan(address, enabled)[1]);
}

/// The read `probe` gives back what the write `setting` put into the settings
/// register: the high nibble of the first byte read is the value written.
pub open spec fn reads_back<E>(setting: Exchange<E>, probe: Exchange<E>) -> bool {
    &&& setting.request matches Request::Write { bytes, .. }
    &&& probe.outcome matches Ok(data)
    &&& bytes.len() == 2
    &&& data.len() == 2
    &&& data[0] >> 4 == bytes[1]
}

/// Setting the output state and querying it agree. When the chip gives back
/// on a state read what was last written to its settings register, the query
/// reports the state that was set: on after enabling, off after disabling.
pub proof fn lemma_enable_round_trip<E>(
    address: u8,
    enable: bool,
    setting: Seq<Exchange<E>>,
    probe: Seq<Exchange<E>>,
)
    requires
        follows(setting, settings_plan(address, enable)),
        follows(probe, probe_plan(address)),
        reads_back(setting.last(), probe.last()),
    ensures
        reading(probe) == Ok::<bool, Error<E>>(enable),
{
    let data = probe.last().outcome->Ok_0;
    assert(setting.last().request == settings_plan(address, enable)[0]);
    lemma_settings_read_back(enable, data[0]);
}

} // verus!
