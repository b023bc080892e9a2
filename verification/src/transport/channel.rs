//! The state of a channel to one HID node.

use vstd::prelude::*;

verus! {

/// Why a report could not be read or written.
#[derive(Clone, Copy, Debug, PartialEq, Eq, Structural)]
pub enum HidFailure {
    /// The device is gone. There will never be another report.
    Disconnected,
    /// Anything else; trying again may help.
    Other,
}

/// What becomes of a read.
#[derive(Clone, Copy, Debug, PartialEq, Eq, Structural)]
pub enum ReadAction {
    /// Hand out the report of this length.
    Return(usize),
    /// Never return: the reader is torn down when the channel closes. Failing
    /// would make it try again at once, for nothing.
    Park,
    /// Fail, so that the reader tries again.
    Fail(HidFailure),
}

/// The state of a channel to one HID node.
#[derive(Clone, Copy, Debug, PartialEq, Eq, Structural)]
pub struct HidChannel {
    /// USB vendor id.
    pub vendor_id: u16,
    /// USB product id.
    pub product_id: u16,
    /// The device was connected when it was last heard of.
    pub connected: bool,
    /// The device exposes only the long HID++ report.
    pub long_only: bool,
}

impl HidChannel {
    /// A channel to a node that was just opened.
    pub fn new(vendor_id: u16, product_id: u16, long_only: bool) -> (channel: HidChannel)
        ensures
            channel == (HidChannel { vendor_id, product_id, connected: true, long_only }),
    {
        HidChannel { vendor_id, product_id, connected: true, long_only }
    }

    /// Notes that the device is gone. Returns whether that is news.
    pub fn mark_disconnected(&mut self) -> (news: bool)
        ensures
            *final(self) == (HidChannel { connected: false, ..*old(self) }),
            news == old(self).connected,
    {
        let news = self.connected;
        self.connected = false;
        news
    }

    /// Takes what came of writing a report of `len` bytes, and returns what the
    /// writer is told.
    pub fn write_report(&mut self, len: usize, outcome: Result<(), HidFailure>) -> (written: Result<
        usize,
        HidFailure,
    >)
        ensures
            written == match outcome {
                Ok(_) => Ok::<usize, HidFailure>(len),
                Err(failure) => Err::<usize, HidFailure>(failure),
            },
            written == write_result(len, outcome),
            *final(self) == after_report(*old(self), failure_of(outcome)),
    {
        match outcome {
            Ok(_) => Ok(len),
            Err(failure) => {
                if failure == HidFailure::Disconnected {
                    self.mark_disconnected();
                }
                Err(failure)
            },
        }
    }

    /// Takes what came of reading a report, and says what to do about it.
    pub fn read_report(&mut self, outcome: Result<usize, HidFailure>) -> (action: ReadAction)
        ensures
            action == match outcome {
                Ok(len) => ReadAction::Return(len),
                Err(HidFailure::Disconnected) => ReadAction::Park,
                Err(HidFailure::Other) => ReadAction::Fail(HidFailure::Other),
            },
            action == read_action(outcome),
            *final(self) == after_report(*old(self), failure_of(outcome)),
    {
        match outcome {
            Ok(len) => ReadAction::Return(len),
            Err(HidFailure::Disconnected) => {
                self.mark_disconnected();
                ReadAction::Park
            },
            Err(HidFailure::Other) => ReadAction::Fail(HidFailure::Other),
        }
    }

    /// Whether the device is connected, as far as is known.
    pub fn is_connected(&self) -> (connected: bool)
        ensures
            connected == self.connected,
    {
        self.connected
    }

    /// Whether the device has short and long HID++ reports. USB and receiver
    /// collections carry both; BLE-direct collections are long-only.
    pub fn supports_short_long_hidpp(&self) -> (support: Option<(bool, bool)>)
        ensures
            support == Some((!self.long_only, true)),
    {
        Some((!self.long_only, true))
    }
}

/// Why a read or a write failed, if it did.
pub open spec fn failure_of<T>(outcome: Result<T, HidFailure>) -> Option<HidFailure> {
    match outcome {
        Ok(_) => None,
        Err(failure) => Some(failure),
    }
}

/// What a channel learns from a read or a write: that the device is gone, or
/// nothing.
pub open spec fn after_report(channel: HidChannel, failure: Option<HidFailure>) -> HidChannel {
    HidChannel {
        connected: channel.connected && failure != Some(HidFailure::Disconnected),
        ..channel
    }
}

/// The channel after a series of reads and writes.
pub open spec fn after_reports(channel: HidChannel, failures: Seq<Option<HidFailure>>) -> HidChannel
    decreases failures.len(),
{
    if failures.len() == 0 {
        channel
    } else {
        after_report(after_reports(channel, failures.drop_last()), failures.last())
    }
}

/// A channel is connected exactly until a read or a write first finds the device
/// gone, and it never comes back: whatever else fails says nothing about it.
pub proof fn disconnection_is_noticed_for_good(
    channel: HidChannel,
    failures: Seq<Option<HidFailure>>,
)
    ensures
        after_reports(channel, failures).connected <==> channel.connected && !failures.contains(
            Some(HidFailure::Disconnected),
        ),
        after_reports(channel, failures).long_only == channel.long_only,
    decreases failures.len(),
{
    let gone = Some(HidFailure::Disconnected);
    if failures.len() > 0 {
        let earlier = failures.drop_last();
        disconnection_is_noticed_for_good(channel, earlier);
        if failures.contains(gone) && failures.last() != gone {
            let i = choose|i: int| 0 <= i < failures.len() && failures[i] == gone;
            assert(earlier[i] == gone);
            assert(earlier.contains(gone));
        }
        if earlier.contains(gone) {
            let i = choose|i: int| 0 <= i < earlier.len() && earlier[i] == gone;
            assert(failures[i] == gone);
        }
        if failures.last() == gone {
            assert(failures[failures.len() - 1] == gone);
        }
    }
}

/// A failure is the one that was reported, and there is none where the read or
/// write succeeded. What a channel is never changes.
pub proof fn reports_are_taken_as_they_came(
    channel: HidChannel,
    outcome: Result<usize, HidFailure>,
    written: Result<(), HidFailure>,
)
    ensures
        failure_of(outcome) is None <==> outcome is Ok,
        outcome matches Err(failure) ==> failure_of(outcome) == Some(failure),
        failure_of(written) is None <==> written is Ok,
        written matches Err(failure) ==> failure_of(written) == Some(failure),
        ({
            let after = after_report(channel, failure_of(outcome));
            &&& after.vendor_id == channel.vendor_id
            &&& after.product_id == channel.product_id
            &&& after.long_only == channel.long_only
            &&& after.connected <==> channel.connected && !(outcome matches Err(failure)
                && failure is Disconnected)
        }),
{
}

/// What a writer of `len` bytes is told.
pub open spec fn write_result(len: usize, outcome: Result<(), HidFailure>) -> Result<
    usize,
    HidFailure,
> {
    match outcome {
        Ok(_) => Ok(len),
        Err(failure) => Err(failure),
    }
}

/// What becomes of a read.
pub open spec fn read_action(outcome: Result<usize, HidFailure>) -> ReadAction {
    match outcome {
        Ok(len) => ReadAction::Return(len),
        Err(HidFailure::Disconnected) => ReadAction::Park,
        Err(failure) => ReadAction::Fail(failure),
    }
}

/// A read is parked exactly if the device is gone, so that it is never tried again
/// for nothing; every other failure is handed on, and a report is handed out as
/// long as it is. A write is told exactly what became of it.
pub proof fn reads_park_only_when_the_device_is_gone(
    outcome: Result<usize, HidFailure>,
    len: usize,
    written: Result<(), HidFailure>,
)
    ensures
        read_action(outcome) is Park <==> failure_of(outcome) == Some(HidFailure::Disconnected),
        read_action(outcome) is Return <==> outcome is Ok,
        read_action(outcome) matches ReadAction::Return(n) ==> outcome == Ok::<usize, HidFailure>(
            n,
        ),
        read_action(outcome) matches ReadAction::Fail(failure) ==> failure_of(outcome) == Some(
            failure,
        ),
        write_result(len, written) is Ok <==> written is Ok,
        write_result(len, written) matches Ok(n) ==> n == len,
        write_result(len, written) matches Err(failure) ==> failure_of(written) == Some(failure),
{
}

} // verus!
