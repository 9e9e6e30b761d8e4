//! The update engine: which record of a zone stands for a host and an
//! address, whether that record has to be written, and the sequence of
//! provider operations that brings it up to date.
//!
//! The engine performs no provider operation itself. [`start`] and [`step`]
//! form a state machine: each returns the next [`Action`] for the caller to
//! perform, and takes what the provider answered as the next [`Event`].

use vstd::prelude::*;
use crate::address::{IpAddress, IpAddressView, IpVersion};
use crate::config::{DomainConfig, DomainConfigView};
use crate::providers::{ProviderError, ProviderErrorView, RecordNotFoundError, UpdateOutcome};
use crate::record::{Record, RecordType, RecordView};
use crate::resolver::{resolve, spec_resolve, HostZoneMismatch};
use crate::search::{
    first_index, lemma_first_index_found, lemma_first_index_is_first, lemma_first_index_missing,
};
use crate::text::str_eq;

verus! {

/// The record type that holds addresses of the given version.
pub open spec fn record_type_for(version: IpVersion) -> RecordType {
    match version {
        IpVersion::V4 => RecordType::A,
        IpVersion::V6 => RecordType::AAAA,
    }
}

/// The record type that holds `ip`: `A` for IPv4, `AAAA` for IPv6.
pub fn record_type_of(ip: &IpAddress) -> (record_type: RecordType)
    ensures
        record_type == record_type_for(ip@.version),
{
    if ip.is_ipv4() {
        RecordType::A
    } else {
        RecordType::AAAA
    }
}

/// What one update wants to hold at the provider: the record with this
/// label and type has this value.
#[derive(Debug)]
pub struct UpdateTarget {
    pub label: String,
    pub record_type: RecordType,
    pub value: String,
}

/// What an [`UpdateTarget`] holds.
pub struct UpdateTargetView {
    pub label: Seq<char>,
    pub record_type: RecordType,
    pub value: Seq<char>,
}

impl View for UpdateTarget {
    type V = UpdateTargetView;

    open spec fn view(&self) -> UpdateTargetView {
        UpdateTargetView {
            label: self.label@,
            record_type: self.record_type,
            value: self.value@,
        }
    }
}

impl UpdateTargetView {
    /// Whether `record` is one this target speaks of: it has the target's
    /// label as its name, and the target's type.
    pub open spec fn selects(self, record: RecordView) -> bool {
        record.name == self.label && record.record_type == self.record_type
    }

    /// [`UpdateTargetView::selects`] as a property of records.
    pub open spec fn selector(self) -> spec_fn(RecordView) -> bool {
        |record: RecordView| self.selects(record)
    }
}

/// The target of updating the host of `domain_config` to `ip`.
pub open spec fn spec_target(domain_config: DomainConfigView, ip: IpAddressView) -> Result<
    UpdateTargetView,
    HostZoneMismatch,
> {
    match spec_resolve(domain_config.host, domain_config.zone.name) {
        Ok(label) => Ok(
            UpdateTargetView {
                label,
                record_type: record_type_for(ip.version),
                value: ip.text,
            },
        ),
        Err(e) => Err(e),
    }
}

/// The characters of a target, or the error.
pub open spec fn target_view(res: Result<UpdateTarget, HostZoneMismatch>) -> Result<
    UpdateTargetView,
    HostZoneMismatch,
> {
    match res {
        Ok(target) => Ok(target@),
        Err(e) => Err(e),
    }
}

/// Works out which record has to hold which value so that the host of
/// `domain_config` points to `new_ip`. Fails exactly when the host lies
/// outside the configured zone.
pub fn target_for(domain_config: &DomainConfig, new_ip: &IpAddress) -> (res: Result<
    UpdateTarget,
    HostZoneMismatch,
>)
    ensures
        target_view(res) == spec_target(domain_config@, new_ip@),
{
    match resolve(domain_config.host.as_str(), domain_config.zone.name.as_str()) {
        Ok(label) => Ok(
            UpdateTarget {
                label,
                record_type: record_type_of(new_ip),
                value: new_ip.text().to_owned(),
            },
        ),
        Err(e) => Err(e),
    }
}

/// The position of the first record that `target` selects, if there is one.
pub open spec fn first_match(records: Seq<RecordView>, target: UpdateTargetView) -> Option<int> {
    first_index(records, target.selector())
}

/// Finds the first record with the target's label and type.
pub fn find_record(records: &Vec<Record>, target: &UpdateTarget) -> (found: Option<usize>)
    ensures
        match found {
            Some(i) => first_match(records.deep_view(), target@) == Some(i as int),
            None => first_match(records.deep_view(), target@) is None,
        },
{
    let mut i: usize = 0;
    while i < records.len()
        invariant
            i <= records.len(),
            forall|j: int|
                0 <= j < i ==> !target@.selects(#[trigger] records.deep_view()[j]),
        decreases records.len() - i,
    {
        let record = &records[i];
        assert(records.deep_view()[i as int] == record@);
        if record.record_type == target.record_type && str_eq(
            record.name.as_str(),
            target.label.as_str(),
        ) {
            proof {
                lemma_first_index_found(records.deep_view(), target@.selector(), i as int);
            }
            return Some(i);
        }
        i += 1;
    }
    proof {
        lemma_first_index_missing(records.deep_view(), target@.selector());
    }
    None
}

/// What has to be done to a zone so that a target holds.
#[derive(Debug)]
pub enum Decision {
    /// The record already holds the value: nothing is written.
    Unchanged,
    /// This record has to be written in place of the one with its id.
    Write(Record),
}

/// What a [`Decision`] holds.
pub enum DecisionView {
    Unchanged,
    Write(RecordView),
}

impl View for Decision {
    type V = DecisionView;

    open spec fn view(&self) -> DecisionView {
        match self {
            Decision::Unchanged => DecisionView::Unchanged,
            Decision::Write(record) => DecisionView::Write(record@),
        }
    }
}

/// The decision for `target` on a zone that lists `records`: the first
/// record that the target selects is left alone when it holds the target's
/// value, and is written with that value otherwise. A zone without such a
/// record is an error: the engine creates no records.
pub open spec fn spec_decide(records: Seq<RecordView>, target: UpdateTargetView) -> Result<
    DecisionView,
    RecordNotFoundError,
> {
    match first_match(records, target) {
        None => Err(RecordNotFoundError),
        Some(i) => if records[i].value == target.value {
            Ok(DecisionView::Unchanged)
        } else {
            Ok(DecisionView::Write(records[i].with_value(target.value)))
        },
    }
}

/// What a decision or its failure holds.
pub open spec fn decision_view(res: Result<Decision, RecordNotFoundError>) -> Result<
    DecisionView,
    RecordNotFoundError,
> {
    match res {
        Ok(decision) => Ok(decision@),
        Err(e) => Err(e),
    }
}

/// Decides, on the records that the provider listed for the zone, whether
/// a write is needed for `target`, and which.
pub fn decide(records: Vec<Record>, target: &UpdateTarget) -> (res: Result<
    Decision,
    RecordNotFoundError,
>)
    ensures
        decision_view(res) == spec_decide(records.deep_view(), target@),
{
    let mut records = records;
    let ghost listed = records.deep_view();
    match find_record(&records, target) {
        None => Err(RecordNotFoundError),
        Some(i) => {
            let record = records.swap_remove(i);
            assert(record@ == listed[i as int]);
            if str_eq(record.value.as_str(), target.value.as_str()) {
                Ok(Decision::Unchanged)
            } else {
                Ok(Decision::Write(record.with_value(target.value.clone())))
            }
        },
    }
}

/// Where one update stands.
#[derive(Debug)]
pub enum State {
    /// The zone's records were asked for; the target waits for them.
    AwaitingRecords(UpdateTarget),
    /// A write was asked for.
    AwaitingWrite,
    /// The update is over.
    Done,
}

/// What a [`State`] holds.
pub enum StateView {
    AwaitingRecords(UpdateTargetView),
    AwaitingWrite,
    Done,
}

impl View for State {
    type V = StateView;

    open spec fn view(&self) -> StateView {
        match self {
            State::AwaitingRecords(target) => StateView::AwaitingRecords(target@),
            State::AwaitingWrite => StateView::AwaitingWrite,
            State::Done => StateView::Done,
        }
    }
}

/// What the caller has to do next.
#[derive(Debug)]
pub enum Action {
    /// List all records of the zone with this id.
    ListRecords { zone_id: String },
    /// Store this record in place of the one with its id.
    UpdateRecord(Record),
    /// Stop: this is the outcome of the update.
    Finish(UpdateOutcome),
}

/// What an [`Action`] holds.
pub enum ActionView {
    ListRecords { zone_id: Seq<char> },
    UpdateRecord(RecordView),
    Finish(Result<bool, ProviderErrorView>),
}

impl View for Action {
    type V = ActionView;

    open spec fn view(&self) -> ActionView {
        match self {
            Action::ListRecords { zone_id } => ActionView::ListRecords { zone_id: zone_id@ },
            Action::UpdateRecord(record) => ActionView::UpdateRecord(record@),
            Action::Finish(Ok(changed)) => ActionView::Finish(Ok(*changed)),
            Action::Finish(Err(error)) => ActionView::Finish(Err(error@)),
        }
    }
}

/// What the provider answered to the last action.
#[derive(Debug)]
pub enum Event {
    /// The records of the zone, as listed.
    Records(Vec<Record>),
    /// The record as the provider holds it after the write.
    Updated(Record),
    /// The operation failed, with this error.
    Failed(ProviderError),
}

/// What an [`Event`] holds.
pub enum EventView {
    Records(Seq<RecordView>),
    Updated(RecordView),
    Failed(ProviderErrorView),
}

impl View for Event {
    type V = EventView;

    open spec fn view(&self) -> EventView {
        match self {
            Event::Records(records) => EventView::Records(records.deep_view()),
            Event::Updated(record) => EventView::Updated(record@),
            Event::Failed(error) => EventView::Failed(error@),
        }
    }
}

/// The detail reported when an event does not answer the last action.
pub open spec fn unexpected_event() -> Seq<char> {
    "Unexpected reply from provider"@
}

/// The first state and action of updating the host of `domain_config` to
/// `ip`: list the zone, unless the host lies outside it.
pub open spec fn spec_start(domain_config: DomainConfigView, ip: IpAddressView) -> (
    StateView,
    ActionView,
) {
    match spec_target(domain_config, ip) {
        Ok(target) => (
            StateView::AwaitingRecords(target),
            ActionView::ListRecords { zone_id: domain_config.zone.id },
        ),
        Err(_) => (StateView::Done, ActionView::Finish(Err(ProviderErrorView::HostZoneMismatch))),
    }
}

/// The state and action that follow `state` on `event`.
///
/// On the listed records the decision is taken: finish unchanged, finish
/// with the record missing, or ask for one write. After the write the update
/// finishes as changed. A failed operation finishes the update with the
/// error it failed with. An event that does not answer the last action
/// finishes it with a transport error.
pub open spec fn spec_step(state: StateView, event: EventView) -> (StateView, ActionView) {
    match (state, event) {
        (StateView::AwaitingRecords(target), EventView::Records(records)) => match spec_decide(
            records,
            target,
        ) {
            Ok(DecisionView::Unchanged) => (StateView::Done, ActionView::Finish(Ok(false))),
            Ok(DecisionView::Write(record)) => (
                StateView::AwaitingWrite,
                ActionView::UpdateRecord(record),
            ),
            Err(_) => (
                StateView::Done,
                ActionView::Finish(Err(ProviderErrorView::RecordNotFound)),
            ),
        },
        (StateView::AwaitingRecords(_), EventView::Failed(error)) => (
            StateView::Done,
            ActionView::Finish(Err(error)),
        ),
        (StateView::AwaitingWrite, EventView::Updated(_)) => (
            StateView::Done,
            ActionView::Finish(Ok(true)),
        ),
        (StateView::AwaitingWrite, EventView::Failed(error)) => (
            StateView::Done,
            ActionView::Finish(Err(error)),
        ),
        _ => (
            StateView::Done,
            ActionView::Finish(Err(ProviderErrorView::Transport(unexpected_event()))),
        ),
    }
}

/// Begins the update of the host of `domain_config` to `new_ip`.
pub fn start(domain_config: &DomainConfig, new_ip: &IpAddress) -> (next: (State, Action))
    ensures
        (next.0@, next.1@) == spec_start(domain_config@, new_ip@),
{
    match target_for(domain_config, new_ip) {
        Ok(target) => (
            State::AwaitingRecords(target),
            Action::ListRecords { zone_id: domain_config.zone.id.clone() },
        ),
        Err(_) => (State::Done, Action::Finish(Err(ProviderError::HostZoneMismatch))),
    }
}

/// The end of an update on an event that does not answer the last action.
fn finish_unexpected() -> (next: (State, Action))
    ensures
        next.0@ == StateView::Done,
        next.1@ == ActionView::Finish(Err(ProviderErrorView::Transport(unexpected_event()))),
{
    (
        State::Done,
        Action::Finish(Err(ProviderError::Transport("Unexpected reply from provider".to_owned()))),
    )
}

/// Takes what the provider answered to the last action, and says what to
/// do next.
pub fn step(state: State, event: Event) -> (next: (State, Action))
    ensures
        (next.0@, next.1@) == spec_step(state@, event@),
{
    match state {
        State::AwaitingRecords(target) => match event {
            Event::Records(records) => match decide(records, &target) {
                Ok(Decision::Unchanged) => (State::Done, Action::Finish(Ok(false))),
                Ok(Decision::Write(record)) => (State::AwaitingWrite, Action::UpdateRecord(record)),
                Err(_) => (State::Done, Action::Finish(Err(ProviderError::RecordNotFound))),
            },
            Event::Failed(error) => (State::Done, Action::Finish(Err(error))),
            Event::Updated(_) => finish_unexpected(),
        },
        State::AwaitingWrite => match event {
            Event::Updated(_) => (State::Done, Action::Finish(Ok(true))),
            Event::Failed(error) => (State::Done, Action::Finish(Err(error))),
            Event::Records(_) => finish_unexpected(),
        },
        State::Done => finish_unexpected(),
    }
}

/// The records of a zone after the provider has stored `record` in place
/// of what it held under the record's id.
pub open spec fn after_write(records: Seq<RecordView>, record: RecordView) -> Seq<RecordView> {
    Seq::new(
        records.len(),
        |i: int|
            if records[i].id == record.id {
                record
            } else {
                records[i]
            },
    )
}

/// An update under way against a provider that holds `records`, lists them
/// as they are and stores what it is asked to write: the engine's state and
/// pending action, and the number of writes so far.
pub struct Run {
    pub state: StateView,
    pub action: ActionView,
    pub records: Seq<RecordView>,
    pub writes: nat,
}

impl Run {
    /// The run after the provider has performed the pending action and the
    /// engine has taken its answer. A finished run stays as it is.
    pub open spec fn advance(self) -> Run {
        match self.action {
            ActionView::ListRecords { .. } => {
                let (state, action) = spec_step(self.state, EventView::Records(self.records));
                Run { state, action, ..self }
            },
            ActionView::UpdateRecord(record) => {
                let (state, action) = spec_step(self.state, EventView::Updated(record));
                Run {
                    state,
                    action,
                    records: after_write(self.records, record),
                    writes: self.writes + 1,
                }
            },
            ActionView::Finish(_) => self,
        }
    }
}

/// The whole update of the host of `domain_config` to `ip`, against a
/// provider that holds `records`.
pub open spec fn spec_run(
    records: Seq<RecordView>,
    domain_config: DomainConfigView,
    ip: IpAddressView,
) -> Run {
    let (state, action) = spec_start(domain_config, ip);
    Run { state, action, records, writes: 0 }.advance().advance()
}

/// The least position at or before `i` whose record has the id of the
/// record at `i`.
proof fn lemma_least_with_id(records: Seq<RecordView>, i: int) -> (k: int)
    requires
        0 <= i < records.len(),
    ensures
        0 <= k <= i,
        records[k].id == records[i].id,
        forall|j: int| 0 <= j < k ==> (#[trigger] records[j]).id != records[i].id,
    decreases i,
{
    if exists|j: int| 0 <= j < i && (#[trigger] records[j]).id == records[i].id {
        let j = choose|j: int| 0 <= j < i && (#[trigger] records[j]).id == records[i].id;
        lemma_least_with_id(records, j)
    } else {
        i
    }
}

/// Once the record that an update selects has been written, the zone
/// needs no further write for the same target.
pub proof fn lemma_decide_after_write(records: Seq<RecordView>, target: UpdateTargetView, i: int)
    requires
        first_match(records, target) == Some(i),
    ensures
        spec_decide(after_write(records, records[i].with_value(target.value)), target) == Ok::<
            DecisionView,
            RecordNotFoundError,
        >(DecisionView::Unchanged),
{
    lemma_first_index_is_first(records, target.selector());
    let written = records[i].with_value(target.value);
    let stored = after_write(records, written);
    let k = lemma_least_with_id(records, i);
    assert(stored[k] == written);
    assert forall|j: int| 0 <= j < k implies !target.selects(#[trigger] stored[j]) by {
        assert(records[j].id != written.id);
        assert(stored[j] == records[j]);
    }
    lemma_first_index_found(stored, target.selector(), k);
}

/// An update is idempotent.
///
/// Take a host that lies in its zone and a zone that lists the host's
/// record. Where the record already holds the address, the update finishes
/// as unchanged, writes nothing and leaves the zone as it was. Where it
/// holds another value, the update finishes as changed after exactly one
/// write, and the same update run again on the zone as written finishes as
/// unchanged without a write.
pub proof fn law_update_idempotent(
    records: Seq<RecordView>,
    domain_config: DomainConfigView,
    ip: IpAddressView,
)
    requires
        spec_target(domain_config, ip) is Ok,
        first_match(records, spec_target(domain_config, ip)->Ok_0) is Some,
    ensures
        ({
            let target = spec_target(domain_config, ip)->Ok_0;
            let current = records[first_match(records, target)->Some_0];
            let first = spec_run(records, domain_config, ip);
            let second = spec_run(first.records, domain_config, ip);
            &&& current.value == ip.text ==> {
                &&& first.action == ActionView::Finish(Ok(false))
                &&& first.writes == 0
                &&& first.records == records
            }
            &&& current.value != ip.text ==> {
                &&& first.action == ActionView::Finish(Ok(true))
                &&& first.writes == 1
                &&& first.records == after_write(records, current.with_value(ip.text))
                &&& second.action == ActionView::Finish(Ok(false))
                &&& second.writes == 0
                &&& second.records == first.records
            }
        }),
{
    let target = spec_target(domain_config, ip)->Ok_0;
    let i = first_match(records, target)->Some_0;
    if records[i].value != ip.text {
        lemma_decide_after_write(records, target, i);
    }
}

/// An update that cannot go through changes nothing: for a host outside
/// its zone it finishes with a mismatch, without asking the provider for
/// anything; for a zone without the host's record it finishes with the
/// record missing, after the listing alone.
pub proof fn law_failed_update_writes_nothing(
    records: Seq<RecordView>,
    domain_config: DomainConfigView,
    ip: IpAddressView,
)
    ensures
        ({
            let run = spec_run(records, domain_config, ip);
            &&& run.action is Finish
            &&& run.writes <= 1
            &&& spec_target(domain_config, ip) is Err ==> {
                &&& spec_start(domain_config, ip).1 == run.action
                &&& run.action == ActionView::Finish(Err(ProviderErrorView::HostZoneMismatch))
                &&& run.writes == 0
                &&& run.records == records
            }
            &&& spec_target(domain_config, ip) matches Ok(target) ==> (first_match(
                records,
                target,
            ) is None ==> {
                &&& run.action == ActionView::Finish(Err(ProviderErrorView::RecordNotFound))
                &&& run.writes == 0
                &&& run.records == records
            })
        }),
{
}

/// Whatever the provider answers, an update asks for at most one write, and
/// only after the zone listed a record of the target whose value differs;
/// it is over after two answers at the latest, and stays over.
pub proof fn law_at_most_one_write(
    domain_config: DomainConfigView,
    ip: IpAddressView,
    first: EventView,
    second: EventView,
    later: EventView,
)
    ensures
        ({
            let (s0, a0) = spec_start(domain_config, ip);
            let (s1, a1) = spec_step(s0, first);
            let (s2, a2) = spec_step(s1, second);
            let (s3, a3) = spec_step(s2, later);
            &&& !(a0 is UpdateRecord)
            &&& a1 is UpdateRecord ==> {
                &&& spec_target(domain_config, ip) matches Ok(target)
                &&& first matches EventView::Records(records)
                &&& first_match(records, target) matches Some(i)
                &&& records[i].value != ip.text
                &&& a1 == ActionView::UpdateRecord(records[i].with_value(ip.text))
            }
            &&& a2 is Finish
            &&& s2 is Done
            &&& a3 is Finish
            &&& s3 is Done
        }),
{
}

/// An address is written to the record type of its version, and to no
/// other: IPv4 to `A`, IPv6 to `AAAA`.
pub proof fn law_record_type_follows_version(
    records: Seq<RecordView>,
    domain_config: DomainConfigView,
    ip: IpAddressView,
)
    ensures
        spec_target(domain_config, ip) matches Ok(target) ==> {
            &&& ip.version == IpVersion::V4 ==> target.record_type == RecordType::A
            &&& ip.version == IpVersion::V6 ==> target.record_type == RecordType::AAAA
            &&& spec_decide(records, target) matches Ok(DecisionView::Write(record))
                ==> record.record_type == record_type_for(ip.version) && record.value == ip.text
        },
{
}

} // verus!
