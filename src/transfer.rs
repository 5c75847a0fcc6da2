//! One end-to-end transfer between two wallets, as a state machine.
//!
//! The caller performs each [`Action`] against the wallet engine and the chain
//! node and hands back the matching [`Event`] with a clock reading. The run
//! decides the protocol order, checks each answer, and assembles the
//! [`TransferOutcome`] with its stage timings.

use vstd::prelude::*;

use crate::text::{join_path, joined};

verus! {

/// One side of a transfer.
#[derive(Clone, Copy, Debug, PartialEq, Eq, Structural)]
pub enum Party {
    Sender,
    Receiver,
}

/// The state of a transfer record as a wallet reports it.
#[derive(Clone, Copy, Debug, PartialEq, Eq, Structural)]
pub enum TransferStatus {
    WaitingCounterparty,
    WaitingConfirmations,
    Settled,
    Failed,
}

/// Why a transfer run stopped.
#[derive(Clone, Copy, Debug, PartialEq, Eq, Structural)]
pub enum TransferError {
    /// The request names no asset.
    NoAssets,
    /// The broadcast returned an empty transaction id.
    EmptyTxid,
    /// A clock reading was earlier than the one before it.
    ClockWentBackwards,
    /// A wallet has no transfer record for the recipient id of an asset.
    RecordMissing { party: Party, asset: usize },
    /// A transfer record did not reach `Settled` after the confirmation.
    NotSettled { party: Party, asset: usize, status: TransferStatus },
    /// An event that does not answer the pending action.
    UnexpectedEvent,
}

/// Where a run stands.
#[derive(Clone, Copy, Debug, PartialEq, Eq, Structural)]
pub enum Stage {
    /// The receiver prepares one receive commitment per asset.
    Receiving,
    /// The sender broadcasts one transaction for all assets.
    Sending,
    RecvRefresh1,
    SendRefresh1,
    Mining,
    RecvRefresh2,
    SendRefresh2,
    /// The size of each asset's consignment is measured.
    Measuring,
    /// Each side reports the status of each asset's transfer record.
    Checking,
    Finished,
    Aborted,
}

/// What the caller is to do next.
#[derive(Clone, Copy, Debug, PartialEq, Eq, Structural)]
pub enum Action {
    /// The receiver prepares a receive commitment for the asset at this position.
    BlindReceive { asset: usize },
    /// The sender broadcasts the transfer to all collected recipient ids.
    Send,
    Refresh { party: Party },
    /// One block is mined.
    Mine,
    MeasureConsignment { asset: usize },
    /// The party looks up its transfer record for the asset's recipient id.
    CheckStatus { party: Party, asset: usize },
    /// The outcome is ready.
    Finish,
    /// The run stopped with this error.
    Abort { reason: TransferError },
}

/// The answer to an [`Action`].
#[derive(Clone, Debug)]
pub enum Event {
    ReceiveReady { recipient_id: String },
    Sent { txid: String },
    Refreshed,
    Mined,
    ConsignmentMeasured { size: u64 },
    /// `None` when no record carries the recipient id.
    StatusReported { status: Option<TransferStatus> },
}

/// The clock readings of one transfer, in milliseconds.
#[derive(Clone, Copy, Debug, PartialEq, Eq, Structural)]
pub struct StageTimes {
    pub begin: u64,
    pub send: u64,
    pub recv_refresh_1: u64,
    pub send_refresh_1: u64,
    pub mine: u64,
    pub recv_refresh_2: u64,
    pub end: u64,
}

impl StageTimes {
    /// The readings follow the protocol order.
    pub open spec fn ordered(self) -> bool {
        &&& self.begin <= self.send
        &&& self.send <= self.recv_refresh_1
        &&& self.recv_refresh_1 <= self.send_refresh_1
        &&& self.send_refresh_1 <= self.mine
        &&& self.mine <= self.recv_refresh_2
        &&& self.recv_refresh_2 <= self.end
    }

    /// The six stage durations: send, receiver refresh, sender refresh,
    /// receiver refresh after the confirmation, sender refresh after the
    /// confirmation, and the total.
    pub fn durations(&self) -> (r: [u64; 6])
        requires
            self.ordered(),
        ensures
            r[0] == self.send - self.begin,
            r[1] == self.recv_refresh_1 - self.send,
            r[2] == self.send_refresh_1 - self.recv_refresh_1,
            r[3] == self.recv_refresh_2 - self.mine,
            r[4] == self.end - self.recv_refresh_2,
            r[5] == self.end - self.begin,
    {
        [
            self.send - self.begin,
            self.recv_refresh_1 - self.send,
            self.send_refresh_1 - self.recv_refresh_1,
            self.recv_refresh_2 - self.mine,
            self.end - self.recv_refresh_2,
            self.end - self.begin,
        ]
    }
}

/// What one completed transfer produced.
#[derive(Clone, Debug)]
pub struct TransferOutcome {
    pub txid: String,
    /// The receiver's recipient id for each asset.
    pub recipient_ids: Vec<String>,
    pub times: StageTimes,
    /// The size in bytes of each asset's consignment.
    pub consignment_sizes: Vec<u64>,
    /// The sender's record status for each asset.
    pub sender_statuses: Vec<TransferStatus>,
    /// The receiver's record status for each asset.
    pub receiver_statuses: Vec<TransferStatus>,
}

impl TransferOutcome {
    /// Every outcome that a run hands out satisfies this.
    pub open spec fn wf(&self) -> bool {
        let n = self.recipient_ids.len();
        &&& n > 0
        &&& self.txid@.len() > 0
        &&& self.times.ordered()
        &&& self.consignment_sizes.len() == n
        &&& self.sender_statuses.len() == n
        &&& self.receiver_statuses.len() == n
        &&& forall|i: int| 0 <= i < n ==> self.sender_statuses[i] == TransferStatus::Settled
        &&& forall|i: int| 0 <= i < n ==> self.receiver_statuses[i] == TransferStatus::Settled
    }
}

/// The number of clock readings taken before a stage is entered.
pub open spec fn readings_before(stage: Stage) -> nat {
    match stage {
        Stage::Receiving => 1,
        Stage::Sending => 1,
        Stage::RecvRefresh1 => 2,
        Stage::SendRefresh1 => 3,
        Stage::Mining => 4,
        Stage::RecvRefresh2 => 5,
        Stage::SendRefresh2 => 6,
        _ => 7,
    }
}

/// The readings are in non-decreasing order.
pub open spec fn sorted(s: Seq<u64>) -> bool {
    forall|i: int, j: int| 0 <= i <= j < s.len() ==> s[i] <= s[j]
}

/// The stage that follows a stage that ends with a clock reading.
pub open spec fn stage_after_reading(stage: Stage) -> Stage {
    match stage {
        Stage::Sending => Stage::RecvRefresh1,
        Stage::RecvRefresh1 => Stage::SendRefresh1,
        Stage::SendRefresh1 => Stage::Mining,
        Stage::Mining => Stage::RecvRefresh2,
        Stage::RecvRefresh2 => Stage::SendRefresh2,
        _ => Stage::Measuring,
    }
}

/// The action that a run in this state asks for.
pub open spec fn action_of(stage: Stage, n: nat, received: nat, measured: nat, checked: nat) -> Action {
    match stage {
        Stage::Receiving => Action::BlindReceive { asset: received as usize },
        Stage::Sending => Action::Send,
        Stage::RecvRefresh1 => Action::Refresh { party: Party::Receiver },
        Stage::SendRefresh1 => Action::Refresh { party: Party::Sender },
        Stage::Mining => Action::Mine,
        Stage::RecvRefresh2 => Action::Refresh { party: Party::Receiver },
        Stage::SendRefresh2 => Action::Refresh { party: Party::Sender },
        Stage::Measuring => Action::MeasureConsignment { asset: measured as usize },
        Stage::Checking => if checked < n {
            Action::CheckStatus { party: Party::Sender, asset: checked as usize }
        } else {
            Action::CheckStatus { party: Party::Receiver, asset: (checked - n) as usize }
        },
        Stage::Finished => Action::Finish,
        Stage::Aborted => Action::Abort { reason: TransferError::UnexpectedEvent },
    }
}

/// The stage ends with a clock reading.
pub open spec fn timed(stage: Stage) -> bool {
    readings_before(stage) < 7 && stage != Stage::Receiving
}

/// The event is of the kind that the stage waits for.
pub open spec fn answers(stage: Stage, event: Event) -> bool {
    match event {
        Event::ReceiveReady { .. } => stage == Stage::Receiving,
        Event::Sent { .. } => stage == Stage::Sending,
        Event::Refreshed => stage == Stage::RecvRefresh1 || stage == Stage::SendRefresh1
            || stage == Stage::RecvRefresh2 || stage == Stage::SendRefresh2,
        Event::Mined => stage == Stage::Mining,
        Event::ConsignmentMeasured { .. } => stage == Stage::Measuring,
        Event::StatusReported { .. } => stage == Stage::Checking,
    }
}

/// A transfer in progress.
pub struct TransferRun {
    /// The number of assets carried by the transaction.
    pub asset_count: usize,
    pub stage: Stage,
    /// The clock readings taken so far, in protocol order.
    pub times: Vec<u64>,
    pub recipient_ids: Vec<String>,
    pub txid: String,
    pub sizes: Vec<u64>,
    /// The statuses reported so far: first the sender's for each asset,
    /// then the receiver's.
    pub statuses: Vec<TransferStatus>,
    /// Set when the run is aborted.
    pub failure: Option<TransferError>,
}

impl TransferRun {
    pub open spec fn wf(&self) -> bool {
        let n = self.asset_count as nat;
        &&& n > 0
        &&& sorted(self.times@)
        &&& (self.stage == Stage::Aborted) == self.failure.is_some()
        &&& self.stage != Stage::Aborted ==> {
            &&& self.times.len() == readings_before(self.stage)
            &&& (self.stage == Stage::Receiving ==> self.recipient_ids.len() < n)
            &&& (self.stage != Stage::Receiving ==> self.recipient_ids.len() == n)
            &&& (readings_before(self.stage) >= 2 ==> self.txid@.len() > 0)
            &&& (readings_before(self.stage) < 7 ==> self.sizes.len() == 0)
            &&& (self.stage == Stage::Measuring ==> self.sizes.len() < n)
            &&& (self.stage == Stage::Checking || self.stage == Stage::Finished
                ==> self.sizes.len() == n)
            &&& (self.stage != Stage::Checking && self.stage != Stage::Finished
                ==> self.statuses.len() == 0)
            &&& (self.stage == Stage::Checking ==> self.statuses.len() < 2 * n)
            &&& (self.stage == Stage::Finished ==> self.statuses.len() == 2 * n)
            &&& forall|i: int|
                0 <= i < self.statuses.len() ==> self.statuses[i] == TransferStatus::Settled
        }
    }

    /// The action this run asks for next.
    pub open spec fn pending(&self) -> Action {
        match self.failure {
            Some(e) => Action::Abort { reason: e },
            None => action_of(
                self.stage,
                self.asset_count as nat,
                self.recipient_ids@.len(),
                self.sizes@.len(),
                self.statuses@.len(),
            ),
        }
    }

    /// Starts a transfer of `asset_count` assets at clock reading `at`.
    pub fn start(asset_count: usize, at: u64) -> (r: Result<TransferRun, TransferError>)
        ensures
            asset_count == 0 <==> r == Err::<TransferRun, TransferError>(TransferError::NoAssets),
            r matches Ok(run) ==> {
                &&& run.wf()
                &&& run.asset_count == asset_count
                &&& run.stage == Stage::Receiving
                &&& run.times@ == seq![at]
                &&& run.recipient_ids.len() == 0
            },
    {
        if asset_count == 0 {
            return Err(TransferError::NoAssets);
        }
        let mut times: Vec<u64> = Vec::new();
        times.push(at);
        Ok(TransferRun {
            asset_count,
            stage: Stage::Receiving,
            times,
            recipient_ids: Vec::new(),
            txid: String::new(),
            sizes: Vec::new(),
            statuses: Vec::new(),
            failure: None,
        })
    }

    /// The action this run asks for next.
    pub fn next_action(&self) -> (r: Action)
        requires
            self.wf(),
        ensures
            r == self.pending(),
    {
        if let Some(e) = self.failure {
            return Action::Abort { reason: e };
        }
        let n = self.asset_count;
        match self.stage {
            Stage::Receiving => Action::BlindReceive { asset: self.recipient_ids.len() },
            Stage::Sending => Action::Send,
            Stage::RecvRefresh1 => Action::Refresh { party: Party::Receiver },
            Stage::SendRefresh1 => Action::Refresh { party: Party::Sender },
            Stage::Mining => Action::Mine,
            Stage::RecvRefresh2 => Action::Refresh { party: Party::Receiver },
            Stage::SendRefresh2 => Action::Refresh { party: Party::Sender },
            Stage::Measuring => Action::MeasureConsignment { asset: self.sizes.len() },
            Stage::Checking => {
                let k = self.statuses.len();
                if k < n {
                    Action::CheckStatus { party: Party::Sender, asset: k }
                } else {
                    Action::CheckStatus { party: Party::Receiver, asset: k - n }
                }
            },
            Stage::Finished => Action::Finish,
            Stage::Aborted => Action::Abort { reason: TransferError::UnexpectedEvent },
        }
    }

    fn abort(&mut self, e: TransferError)
        requires
            old(self).wf(),
        ensures
            final(self).wf(),
            final(self).stage == Stage::Aborted,
            final(self).failure == Some(e),
            final(self).asset_count == old(self).asset_count,
            final(self).times@ == old(self).times@,
            final(self).recipient_ids@ == old(self).recipient_ids@,
            final(self).txid@ == old(self).txid@,
            final(self).sizes@ == old(self).sizes@,
            final(self).statuses@ == old(self).statuses@,
    {
        self.stage = Stage::Aborted;
        self.failure = Some(e);
    }

    /// Takes a clock reading at the end of a timed stage.
    fn take_reading(&mut self, at: u64) -> (r: Result<(), TransferError>)
        requires
            old(self).wf(),
            old(self).failure.is_none(),
            readings_before(old(self).stage) < 7,
            readings_before(old(self).stage) >= 2 || old(self).stage == Stage::Sending,
            old(self).txid@.len() > 0,
        ensures
            final(self).wf(),
            final(self).asset_count == old(self).asset_count,
            final(self).recipient_ids@ == old(self).recipient_ids@,
            final(self).txid@ == old(self).txid@,
            final(self).sizes@ == old(self).sizes@,
            final(self).statuses@ == old(self).statuses@,
            at < old(self).times@.last() ==> {
                &&& r == Err::<(), TransferError>(TransferError::ClockWentBackwards)
                &&& final(self).stage == Stage::Aborted
                &&& final(self).failure == Some(TransferError::ClockWentBackwards)
            },
            at >= old(self).times@.last() ==> {
                &&& r is Ok
                &&& final(self).stage == stage_after_reading(old(self).stage)
                &&& final(self).times@ == old(self).times@.push(at)
                &&& final(self).recipient_ids@ == old(self).recipient_ids@
                &&& final(self).txid@ == old(self).txid@
                &&& final(self).failure.is_none()
            },
    {
        let last = self.times[self.times.len() - 1];
        if at < last {
            self.abort(TransferError::ClockWentBackwards);
            return Err(TransferError::ClockWentBackwards);
        }
        self.times.push(at);
        self.stage = match self.stage {
            Stage::Sending => Stage::RecvRefresh1,
            Stage::RecvRefresh1 => Stage::SendRefresh1,
            Stage::SendRefresh1 => Stage::Mining,
            Stage::Mining => Stage::RecvRefresh2,
            Stage::RecvRefresh2 => Stage::SendRefresh2,
            _ => Stage::Measuring,
        };
        Ok(())
    }

    /// Hands the run the answer to its pending action, with the clock
    /// reading taken when the answer came.
    pub fn record(&mut self, event: Event, at: u64) -> (r: Result<(), TransferError>)
        requires
            old(self).wf(),
        ensures
            final(self).wf(),
            final(self).asset_count == old(self).asset_count,
            r is Err <==> final(self).stage == Stage::Aborted,
            r matches Err(e) ==> final(self).failure == Some(e),
            // each event changes only what it answers
            event is ReceiveReady ==> {
                &&& final(self).times@ == old(self).times@
                &&& final(self).txid@ == old(self).txid@
                &&& final(self).sizes@ == old(self).sizes@
                &&& final(self).statuses@ == old(self).statuses@
            },
            event is Sent ==> {
                &&& final(self).recipient_ids@ == old(self).recipient_ids@
                &&& final(self).sizes@ == old(self).sizes@
                &&& final(self).statuses@ == old(self).statuses@
            },
            event is Refreshed || event is Mined ==> {
                &&& final(self).recipient_ids@ == old(self).recipient_ids@
                &&& final(self).txid@ == old(self).txid@
                &&& final(self).sizes@ == old(self).sizes@
                &&& final(self).statuses@ == old(self).statuses@
            },
            event is ConsignmentMeasured ==> {
                &&& final(self).times@ == old(self).times@
                &&& final(self).recipient_ids@ == old(self).recipient_ids@
                &&& final(self).txid@ == old(self).txid@
                &&& final(self).statuses@ == old(self).statuses@
            },
            event is StatusReported ==> {
                &&& final(self).times@ == old(self).times@
                &&& final(self).recipient_ids@ == old(self).recipient_ids@
                &&& final(self).txid@ == old(self).txid@
                &&& final(self).sizes@ == old(self).sizes@
            },
            // answers that do not fit the pending action
            !answers(old(self).stage, event) ==> r == Err::<(), TransferError>(
                TransferError::UnexpectedEvent,
            ),
            // a receive commitment
            old(self).stage == Stage::Receiving ==> (event matches Event::ReceiveReady {
                recipient_id,
            } ==> {
                &&& r is Ok
                &&& final(self).recipient_ids@ == old(self).recipient_ids@.push(recipient_id)
                &&& final(self).stage == if old(self).recipient_ids.len() + 1
                    == old(self).asset_count {
                    Stage::Sending
                } else {
                    Stage::Receiving
                }
            }),
            // the broadcast
            old(self).stage == Stage::Sending ==> (event matches Event::Sent { txid } ==> {
                &&& txid@.len() == 0 ==> r == Err::<(), TransferError>(TransferError::EmptyTxid)
                &&& txid@.len() > 0 && at < old(self).times@.last() ==> r == Err::<
                    (),
                    TransferError,
                >(TransferError::ClockWentBackwards)
                &&& txid@.len() > 0 && at >= old(self).times@.last() ==> {
                    &&& r is Ok
                    &&& final(self).txid@ == txid@
                    &&& final(self).times@ == old(self).times@.push(at)
                    &&& final(self).stage == Stage::RecvRefresh1
                }
            }),
            // a refresh or the block
            answers(old(self).stage, event) && timed(old(self).stage) && old(self).stage
                != Stage::Sending ==> {
                &&& at < old(self).times@.last() ==> r == Err::<(), TransferError>(
                    TransferError::ClockWentBackwards,
                )
                &&& at >= old(self).times@.last() ==> {
                    &&& r is Ok
                    &&& final(self).times@ == old(self).times@.push(at)
                    &&& final(self).stage == stage_after_reading(old(self).stage)
                }
            },
            // a consignment size
            old(self).stage == Stage::Measuring ==> (event matches Event::ConsignmentMeasured {
                size,
            } ==> {
                &&& r is Ok
                &&& final(self).sizes@ == old(self).sizes@.push(size)
                &&& final(self).stage == if old(self).sizes.len() + 1 == old(self).asset_count {
                    Stage::Checking
                } else {
                    Stage::Measuring
                }
            }),
            // a record status
            old(self).stage == Stage::Checking ==> (event matches Event::StatusReported {
                status,
            } ==> {
                let k = old(self).statuses@.len();
                let n = old(self).asset_count as nat;
                let party = if k < n {
                    Party::Sender
                } else {
                    Party::Receiver
                };
                let asset = (if k < n {
                    k
                } else {
                    (k - n) as nat
                }) as usize;
                &&& status is None ==> r == Err::<(), TransferError>(
                    TransferError::RecordMissing { party, asset },
                )
                &&& status is Some && status->0 != TransferStatus::Settled ==> r == Err::<
                    (),
                    TransferError,
                >(TransferError::NotSettled { party, asset, status: status->0 })
                &&& status == Some(TransferStatus::Settled) ==> {
                    &&& r is Ok
                    &&& final(self).statuses@ == old(self).statuses@.push(TransferStatus::Settled)
                    &&& final(self).stage == if k + 1 == 2 * n {
                        Stage::Finished
                    } else {
                        Stage::Checking
                    }
                }
            }),
    {
        match event {
            Event::ReceiveReady { recipient_id } => {
                if self.stage != Stage::Receiving {
                    self.abort(TransferError::UnexpectedEvent);
                    return Err(TransferError::UnexpectedEvent);
                }
                self.recipient_ids.push(recipient_id);
                if self.recipient_ids.len() == self.asset_count {
                    self.stage = Stage::Sending;
                }
                Ok(())
            },
            Event::Sent { txid } => {
                if self.stage != Stage::Sending {
                    self.abort(TransferError::UnexpectedEvent);
                    return Err(TransferError::UnexpectedEvent);
                }
                if txid.as_str().is_empty() {
                    self.abort(TransferError::EmptyTxid);
                    return Err(TransferError::EmptyTxid);
                }
                self.txid = txid;
                self.take_reading(at)
            },
            Event::Refreshed => {
                if self.stage != Stage::RecvRefresh1 && self.stage != Stage::SendRefresh1
                    && self.stage != Stage::RecvRefresh2 && self.stage != Stage::SendRefresh2 {
                    self.abort(TransferError::UnexpectedEvent);
                    return Err(TransferError::UnexpectedEvent);
                }
                self.take_reading(at)
            },
            Event::Mined => {
                if self.stage != Stage::Mining {
                    self.abort(TransferError::UnexpectedEvent);
                    return Err(TransferError::UnexpectedEvent);
                }
                self.take_reading(at)
            },
            Event::ConsignmentMeasured { size } => {
                if self.stage != Stage::Measuring {
                    self.abort(TransferError::UnexpectedEvent);
                    return Err(TransferError::UnexpectedEvent);
                }
                self.sizes.push(size);
                if self.sizes.len() == self.asset_count {
                    self.stage = Stage::Checking;
                }
                Ok(())
            },
            Event::StatusReported { status } => {
                if self.stage != Stage::Checking {
                    self.abort(TransferError::UnexpectedEvent);
                    return Err(TransferError::UnexpectedEvent);
                }
                let k = self.statuses.len();
                let n = self.asset_count;
                let party = if k < n {
                    Party::Sender
                } else {
                    Party::Receiver
                };
                let asset = if k < n {
                    k
                } else {
                    k - n
                };
                match status {
                    None => {
                        let e = TransferError::RecordMissing { party, asset };
                        self.abort(e);
                        Err(e)
                    },
                    Some(st) => {
                        if st != TransferStatus::Settled {
                            let e = TransferError::NotSettled { party, asset, status: st };
                            self.abort(e);
                            return Err(e);
                        }
                        self.statuses.push(TransferStatus::Settled);
                        if self.statuses.len() >= n && self.statuses.len() - n == n {
                            self.stage = Stage::Finished;
                        }
                        Ok(())
                    },
                }
            },
        }
    }

    /// The outcome of a finished run: the transaction, the clock readings in
    /// protocol order, the consignment sizes and the statuses both sides
    /// reported, all `Settled`.
    pub fn outcome(&self) -> (r: Option<TransferOutcome>)
        requires
            self.wf(),
        ensures
            (self.stage == Stage::Finished) <==> r is Some,
            r matches Some(o) ==> {
                let n = self.asset_count as int;
                &&& o.wf()
                &&& o.times.ordered()
                &&& forall|i: int|
                    0 <= i < n ==> o.sender_statuses[i] == TransferStatus::Settled
                        && o.receiver_statuses[i] == TransferStatus::Settled
                &&& o.txid@ == self.txid@
                &&& o.recipient_ids@ == self.recipient_ids@
                &&& o.consignment_sizes@ == self.sizes@
                &&& o.times.begin == self.times[0]
                &&& o.times.send == self.times[1]
                &&& o.times.recv_refresh_1 == self.times[2]
                &&& o.times.send_refresh_1 == self.times[3]
                &&& o.times.mine == self.times[4]
                &&& o.times.recv_refresh_2 == self.times[5]
                &&& o.times.end == self.times[6]
                &&& o.sender_statuses@ == self.statuses@.subrange(0, n)
                &&& o.receiver_statuses@ == self.statuses@.subrange(n, 2 * n)
            },
    {
        if self.stage != Stage::Finished {
            return None;
        }
        let n = self.asset_count;
        let mut sender_statuses: Vec<TransferStatus> = Vec::new();
        let mut receiver_statuses: Vec<TransferStatus> = Vec::new();
        let mut i: usize = 0;
        while i < n
            invariant
                self.wf(),
                self.stage == Stage::Finished,
                n == self.asset_count,
                i <= n,
                sender_statuses@ == self.statuses@.subrange(0, i as int),
                receiver_statuses@ == self.statuses@.subrange(n as int, n + i),
            decreases n - i,
        {
            sender_statuses.push(self.statuses[i]);
            receiver_statuses.push(self.statuses[n + i]);
            i = i + 1;
        }
        let times = StageTimes {
            begin: self.times[0],
            send: self.times[1],
            recv_refresh_1: self.times[2],
            send_refresh_1: self.times[3],
            mine: self.times[4],
            recv_refresh_2: self.times[5],
            end: self.times[6],
        };
        Some(TransferOutcome {
            txid: self.txid.clone(),
            recipient_ids: self.recipient_ids.clone(),
            times,
            consignment_sizes: self.sizes.clone(),
            sender_statuses,
            receiver_statuses,
        })
    }
}

/// One transfer record as a wallet lists it.
#[derive(Clone, Debug)]
pub struct TransferRecord {
    pub recipient_id: Option<String>,
    pub status: TransferStatus,
}

/// The record carries the recipient id `rid`.
pub open spec fn carries(record: TransferRecord, rid: Seq<char>) -> bool {
    record.recipient_id matches Some(s) && s@ == rid
}

/// The status of the first record that carries the recipient id `rid`, if
/// any does.
pub open spec fn status_of(records: Seq<TransferRecord>, rid: Seq<char>) -> Option<TransferStatus>
    decreases records.len(),
{
    if records.len() == 0 {
        None
    } else if carries(records[0], rid) {
        Some(records[0].status)
    } else {
        status_of(records.drop_first(), rid)
    }
}

/// The status of the first record that carries the recipient id `rid`;
/// `None` when no record does.
pub fn find_status(records: &Vec<TransferRecord>, rid: &str) -> (r: Option<TransferStatus>)
    ensures
        r == status_of(records@, rid@),
{
    let mut i: usize = 0;
    assert(records@.skip(0) == records@);
    while i < records.len()
        invariant
            i <= records.len(),
            status_of(records@, rid@) == status_of(records@.skip(i as int), rid@),
        decreases records.len() - i,
    {
        assert(records@.skip(i as int).drop_first() == records@.skip(i + 1));
        assert(records@.skip(i as int)[0] == records@[i as int]);
        let matched = match &records[i].recipient_id {
            Some(s) => str_eq(s.as_str(), rid),
            None => false,
        };
        if matched {
            return Some(records[i].status);
        }
        i = i + 1;
    }
    None
}

/// Whether two strings hold the same characters.
fn str_eq(a: &str, b: &str) -> (r: bool)
    ensures
        r == (a@ == b@),
{
    let x = crate::text::chars_of(a);
    let y = crate::text::chars_of(b);
    if x.len() != y.len() {
        return false;
    }
    let mut i: usize = 0;
    while i < x.len()
        invariant
            x@ == a@,
            y@ == b@,
            x.len() == y.len(),
            i <= x.len(),
            forall|k: int| 0 <= k < i ==> x[k] == y[k],
        decreases x.len() - i,
    {
        if x[i] != y[i] {
            return false;
        }
        i = i + 1;
    }
    assert(x@ =~= y@);
    true
}

/// Where the wallet engine writes the consignment of an asset of an outgoing
/// transfer: `{data_dir}/{fingerprint}/transfers/{txid}/{asset_id}/consignment_out`.
pub open spec fn consignment_path(
    data_dir: Seq<char>,
    fingerprint: Seq<char>,
    txid: Seq<char>,
    asset_id: Seq<char>,
) -> Seq<char> {
    joined(
        joined(
            joined(joined(joined(data_dir, fingerprint), "transfers"@), txid),
            asset_id,
        ),
        "consignment_out"@,
    )
}

/// The path of the consignment that the sender wrote for one asset of a
/// transfer.
pub fn get_consignment_path(data_dir: &str, fingerprint: &str, txid: &str, asset_id: &str) -> (r:
    String)
    ensures
        r@ == consignment_path(data_dir@, fingerprint@, txid@, asset_id@),
{
    let p = join_path(String::from_str(data_dir), fingerprint);
    let p = join_path(p, "transfers");
    let p = join_path(p, txid);
    let p = join_path(p, asset_id);
    join_path(p, "consignment_out")
}

#[verifier::external_type_specification]
#[verifier::external_body]
pub struct ExInstant(std::time::Instant);

/// Relies on `std::time::Instant::now`: a reading of the monotonic clock.
#[verifier::external_body]
pub fn timestamp() -> (r: std::time::Instant) {
    std::time::Instant::now()
}

/// Relies on `std::time::Instant::elapsed`: the time passed since `start`.
#[verifier::external_body]
fn elapsed_since(start: &std::time::Instant) -> (r: std::time::Duration) {
    start.elapsed()
}

/// Relies on `std::time::Duration::as_millis`: the whole milliseconds of `d`.
#[verifier::external_body]
fn whole_millis(d: &std::time::Duration) -> (r: u128) {
    d.as_millis()
}

/// The reading a monotonic clock hands out after `last` when the time source
/// says `t`: `t`, unless that is earlier than `last`.
pub open spec fn reading_after(last: u64, t: u64) -> u64 {
    if t > last {
        t
    } else {
        last
    }
}

/// The reading a monotonic clock hands out after `last` when the time source
/// says `t`.
pub fn next_reading(last: u64, t: u64) -> (r: u64)
    ensures
        r == reading_after(last, t),
        r >= last,
{
    if t > last {
        t
    } else {
        last
    }
}

/// Milliseconds since `start`, capped at `u64::MAX`.
fn millis_since(start: &std::time::Instant) -> u64 {
    let ms = whole_millis(&elapsed_since(start));
    if ms > u64::MAX as u128 {
        u64::MAX
    } else {
        ms as u64
    }
}

/// A millisecond clock for the stage readings of transfers. Its readings
/// never go down.
pub struct Stopwatch {
    start: std::time::Instant,
    last: u64,
}

impl Stopwatch {
    /// The last reading handed out.
    pub closed spec fn last_reading(&self) -> u64 {
        self.last
    }

    /// Starts the clock.
    pub fn new() -> (r: Stopwatch)
        ensures
            r.last_reading() == 0,
    {
        Stopwatch { start: timestamp(), last: 0 }
    }

    /// Milliseconds since the clock was started; never less than the reading
    /// before.
    pub fn now(&mut self) -> (r: u64)
        ensures
            r >= old(self).last_reading(),
            final(self).last_reading() == r,
    {
        let t = millis_since(&self.start);
        self.last = next_reading(self.last, t);
        self.last
    }
}

} // verus!
