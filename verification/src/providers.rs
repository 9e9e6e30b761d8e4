//! The provider capability: the one operation the request layer calls, the
//! errors it fails with, and the text it reports for each outcome.

use vstd::prelude::*;
use crate::address::{IpAddress, IpAddressView, IpVersion, Ipv4Address, Ipv6Address};
use crate::config::{DomainConfig, DomainConfigView, ProviderType};

verus! {

/// The record that should be updated does not exist at the provider.
#[derive(PartialEq, Eq, Clone, Copy, Debug, Structural)]
pub struct RecordNotFoundError;

impl RecordNotFoundError {
    /// The text of this error.
    pub open spec fn message() -> Seq<char> {
        "Record not found"@
    }

    /// The text of this error.
    pub fn to_string(&self) -> (text: String)
        ensures
            text@ == Self::message(),
    {
        "Record not found".to_owned()
    }
}

/// Why a provider could not bring a record up to date.
#[derive(Debug)]
pub enum ProviderError {
    /// The host does not lie in the zone it is configured with.
    HostZoneMismatch,
    /// The zone holds no record of the host's label and the wanted type.
    RecordNotFound,
    /// The provider could not be reached, or its answer could not be read;
    /// holds the underlying detail.
    Transport(String),
    /// The provider turned the write down; holds the underlying detail.
    Update(String),
    /// No adapter is set up for the provider the domain is bound to.
    NotConfigured,
}

/// What a [`ProviderError`] holds.
pub enum ProviderErrorView {
    HostZoneMismatch,
    RecordNotFound,
    Transport(Seq<char>),
    Update(Seq<char>),
    NotConfigured,
}

impl ProviderErrorView {
    /// The detail that is reported for this error.
    pub open spec fn message(self) -> Seq<char> {
        match self {
            ProviderErrorView::HostZoneMismatch => "Host does not belong to zone"@,
            ProviderErrorView::RecordNotFound => RecordNotFoundError::message(),
            ProviderErrorView::Transport(detail) => detail,
            ProviderErrorView::Update(detail) => detail,
            ProviderErrorView::NotConfigured => "Provider not configured"@,
        }
    }
}

impl View for ProviderError {
    type V = ProviderErrorView;

    open spec fn view(&self) -> ProviderErrorView {
        match self {
            ProviderError::HostZoneMismatch => ProviderErrorView::HostZoneMismatch,
            ProviderError::RecordNotFound => ProviderErrorView::RecordNotFound,
            ProviderError::Transport(detail) => ProviderErrorView::Transport(detail@),
            ProviderError::Update(detail) => ProviderErrorView::Update(detail@),
            ProviderError::NotConfigured => ProviderErrorView::NotConfigured,
        }
    }
}

impl ProviderError {
    /// The detail that is reported for this error.
    pub fn to_string(&self) -> (text: String)
        ensures
            text@ == self@.message(),
    {
        match self {
            ProviderError::HostZoneMismatch => "Host does not belong to zone".to_owned(),
            ProviderError::RecordNotFound => RecordNotFoundError.to_string(),
            ProviderError::Transport(detail) => detail.clone(),
            ProviderError::Update(detail) => detail.clone(),
            ProviderError::NotConfigured => "Provider not configured".to_owned(),
        }
    }
}

/// The outcome of one update: whether the record was changed, or why the
/// update failed.
pub type UpdateOutcome = Result<bool, ProviderError>;

/// What an [`UpdateOutcome`] holds.
pub open spec fn outcome_view(outcome: UpdateOutcome) -> Result<bool, ProviderErrorView> {
    match outcome {
        Ok(changed) => Ok(changed),
        Err(error) => Err(error@),
    }
}

/// A DNS backend that can bring the record of a host up to date.
///
/// `update_ip` returns `Ok(true)` when it changed the record, `Ok(false)`
/// when the record already held the address. What it returns is the
/// backend's to decide; callers are verified for every outcome.
pub trait Provider: Sized {
    /// Whether one call of `update_ip` on this provider, with these
    /// arguments, may return `outcome` and leave the provider as `after`.
    ///
    /// This is the implementation's own account of itself, and all that
    /// callers learn of a call. Unless an implementation says more, every
    /// outcome is admitted: that is what holds of a backend that answers
    /// from a remote service.
    open spec fn answers(
        &self,
        domain_config: DomainConfigView,
        new_ip: IpAddressView,
        outcome: Result<bool, ProviderErrorView>,
        after: &Self,
    ) -> bool {
        true
    }

    /// Brings the record of the host of `domain_config` to `new_ip`.
    fn update_ip(&mut self, domain_config: &DomainConfig, new_ip: &IpAddress) -> (outcome:
        UpdateOutcome)
        ensures
            old(self).answers(domain_config@, new_ip@, outcome_view(outcome), final(self)),
    ;
}

/// The text reported when a record was changed.
pub open spec fn updated_text(version: IpVersion) -> Seq<char> {
    match version {
        IpVersion::V4 => "Updated IPv4 successfully"@,
        IpVersion::V6 => "Updated IPv6 successfully"@,
    }
}

/// The text reported when a record already held the address.
pub open spec fn unchanged_text(version: IpVersion) -> Seq<char> {
    match version {
        IpVersion::V4 => "IPv4 already set correctly"@,
        IpVersion::V6 => "IPv6 already set correctly"@,
    }
}

/// The text reported for a failed update: `Error: ` and the detail.
pub open spec fn error_text(error: ProviderErrorView) -> Seq<char> {
    "Error: "@ + error.message()
}

/// The result string of one update of the given version.
pub open spec fn spec_result(version: IpVersion, outcome: Result<bool, ProviderErrorView>) -> Result<
    Seq<char>,
    Seq<char>,
> {
    match outcome {
        Ok(true) => Ok(updated_text(version)),
        Ok(false) => Ok(unchanged_text(version)),
        Err(error) => Err(error_text(error)),
    }
}

/// The characters of a result string.
pub open spec fn result_view(res: Result<String, String>) -> Result<Seq<char>, Seq<char>> {
    match res {
        Ok(text) => Ok(text@),
        Err(text) => Err(text@),
    }
}

/// The result string for the outcome of one update of the given version.
pub fn result_text(version: IpVersion, outcome: &UpdateOutcome) -> (res: Result<String, String>)
    ensures
        result_view(res) == spec_result(version, outcome_view(*outcome)),
{
    match outcome {
        Ok(true) => Ok(
            match version {
                IpVersion::V4 => "Updated IPv4 successfully".to_owned(),
                IpVersion::V6 => "Updated IPv6 successfully".to_owned(),
            },
        ),
        Ok(false) => Ok(
            match version {
                IpVersion::V4 => "IPv4 already set correctly".to_owned(),
                IpVersion::V6 => "IPv6 already set correctly".to_owned(),
            },
        ),
        Err(error) => {
            let detail = error.to_string();
            Err("Error: ".to_owned().concat(detail.as_str()))
        },
    }
}

/// Updates the `A` record of the host of `domain_config` to `new_ip`
/// through `provider`, with one call, and reports the outcome as text.
pub fn update_ipv4<P: Provider>(
    provider: &mut P,
    new_ip: &Ipv4Address,
    domain_config: &DomainConfig,
) -> (res: Result<String, String>)
    ensures
        exists|outcome: Result<bool, ProviderErrorView>|
            {
                &&& old(provider).answers(
                    domain_config@,
                    IpAddressView { version: IpVersion::V4, text: new_ip@ },
                    outcome,
                    final(provider),
                )
                &&& result_view(res) == spec_result(IpVersion::V4, outcome)
            },
{
    let outcome = provider.update_ip(domain_config, &IpAddress::V4(new_ip.clone()));
    result_text(IpVersion::V4, &outcome)
}

/// Updates the `AAAA` record of the host of `domain_config` to `new_ip`
/// through `provider`, with one call, and reports the outcome as text.
pub fn update_ipv6<P: Provider>(
    provider: &mut P,
    new_ip: &Ipv6Address,
    domain_config: &DomainConfig,
) -> (res: Result<String, String>)
    ensures
        exists|outcome: Result<bool, ProviderErrorView>|
            {
                &&& old(provider).answers(
                    domain_config@,
                    IpAddressView { version: IpVersion::V6, text: new_ip@ },
                    outcome,
                    final(provider),
                )
                &&& result_view(res) == spec_result(IpVersion::V6, outcome)
            },
{
    let outcome = provider.update_ip(domain_config, &IpAddress::V6(new_ip.clone()));
    result_text(IpVersion::V6, &outcome)
}

/// One call that a [`MockProvider`] received.
#[derive(Debug)]
pub struct MockCall {
    pub domain_config: DomainConfig,
    pub new_ip: IpAddress,
}

/// What a [`MockCall`] holds.
pub struct MockCallView {
    pub domain_config: DomainConfigView,
    pub new_ip: IpAddressView,
}

impl View for MockCall {
    type V = MockCallView;

    open spec fn view(&self) -> MockCallView {
        MockCallView { domain_config: self.domain_config@, new_ip: self.new_ip@ }
    }
}

impl DeepView for MockCall {
    type V = MockCallView;

    open spec fn deep_view(&self) -> MockCallView {
        self@
    }
}

/// A provider for tests: it answers each call with the next outcome of a
/// script, and keeps a log of the calls it received.
#[derive(Debug)]
pub struct MockProvider {
    /// The outcomes still to be given, the next one first.
    pub script: Vec<UpdateOutcome>,
    /// The calls received so far, the first one first.
    pub calls: Vec<MockCall>,
}

/// What a [`MockProvider`] holds.
pub struct MockProviderView {
    pub script: Seq<Result<bool, ProviderErrorView>>,
    pub calls: Seq<MockCallView>,
}

impl MockProviderView {
    /// A provider with an empty script, that has received no call.
    pub open spec fn fresh() -> MockProviderView {
        MockProviderView { script: Seq::empty(), calls: Seq::empty() }
    }

    /// The detail of the error that answers a call the script has no
    /// outcome for.
    pub open spec fn unscripted() -> Seq<char> {
        "No outcome scripted for this call"@
    }

    /// What the next call returns.
    pub open spec fn next_outcome(self) -> Result<bool, ProviderErrorView> {
        if self.script.len() > 0 {
            self.script[0]
        } else {
            Err(ProviderErrorView::Transport(Self::unscripted()))
        }
    }

    /// The provider after a call with these arguments: the outcome given is
    /// gone from the script, and the call is the last of the log.
    pub open spec fn after_call(
        self,
        domain_config: DomainConfigView,
        new_ip: IpAddressView,
    ) -> MockProviderView {
        MockProviderView {
            script: if self.script.len() > 0 {
                self.script.drop_first()
            } else {
                self.script
            },
            calls: self.calls.push(MockCallView { domain_config, new_ip }),
        }
    }
}

impl View for MockProvider {
    type V = MockProviderView;

    open spec fn view(&self) -> MockProviderView {
        MockProviderView {
            script: Seq::new(self.script.len() as nat, |i: int| outcome_view(self.script[i])),
            calls: self.calls.deep_view(),
        }
    }
}

impl MockProvider {
    /// A provider with an empty script, that has received no call.
    pub fn new() -> (mock: MockProvider)
        ensures
            mock@ == MockProviderView::fresh(),
    {
        let mock = MockProvider { script: Vec::new(), calls: Vec::new() };
        assert(mock@.script =~= Seq::empty());
        assert(mock@.calls =~= Seq::empty());
        mock
    }

    /// Appends `outcome` to the script: it answers the first call that the
    /// script so far does not cover.
    pub fn expect_update_ip(&mut self, outcome: UpdateOutcome)
        ensures
            final(self)@.script == old(self)@.script.push(outcome_view(outcome)),
            final(self)@.calls == old(self)@.calls,
    {
        self.script.push(outcome);
        assert(self@.script =~= old(self)@.script.push(outcome_view(outcome)));
    }

    /// The number of calls received so far.
    pub fn call_count(&self) -> (count: usize)
        ensures
            count == self@.calls.len(),
    {
        self.calls.len()
    }

    /// The number of scripted outcomes that no call has asked for yet.
    pub fn remaining(&self) -> (count: usize)
        ensures
            count == self@.script.len(),
    {
        self.script.len()
    }
}

impl Default for MockProvider {
    fn default() -> (mock: MockProvider)
        ensures
            mock@ == MockProviderView::fresh(),
    {
        MockProvider::new()
    }
}

impl Provider for MockProvider {
    open spec fn answers(
        &self,
        domain_config: DomainConfigView,
        new_ip: IpAddressView,
        outcome: Result<bool, ProviderErrorView>,
        after: &Self,
    ) -> bool {
        &&& outcome == self@.next_outcome()
        &&& after@ == self@.after_call(domain_config, new_ip)
    }

    fn update_ip(&mut self, domain_config: &DomainConfig, new_ip: &IpAddress) -> (outcome:
        UpdateOutcome) {
        self.calls.push(MockCall { domain_config: domain_config.clone(), new_ip: new_ip.clone() });
        assert(self@.calls =~= old(self)@.calls.push(
            MockCallView { domain_config: domain_config@, new_ip: new_ip@ },
        ));
        if self.script.len() > 0 {
            let outcome = self.script.remove(0);
            assert(self@.script =~= old(self)@.script.drop_first());
            outcome
        } else {
            Err(ProviderError::Transport("No outcome scripted for this call".to_owned()))
        }
    }
}

/// The adapters at hand, one per provider type. `H` is the adapter for the
/// Hetzner backend.
pub struct Providers<H: Provider> {
    pub hetzner_provider: Option<H>,
    pub mock_provider: Option<MockProvider>,
}

impl<H: Provider> Provider for Providers<H> {
    /// The call goes to the adapter of the provider type that the domain is
    /// bound to, and leaves the other adapter alone. Without that adapter it
    /// fails as not configured, and changes nothing.
    open spec fn answers(
        &self,
        domain_config: DomainConfigView,
        new_ip: IpAddressView,
        outcome: Result<bool, ProviderErrorView>,
        after: &Self,
    ) -> bool {
        match domain_config.provider {
            ProviderType::HetznerProvider => match self.hetzner_provider {
                Some(adapter) => {
                    &&& after.hetzner_provider matches Some(adapter_after)
                    &&& adapter.answers(domain_config, new_ip, outcome, &adapter_after)
                    &&& after.mock_provider == self.mock_provider
                },
                None => outcome == Err::<bool, ProviderErrorView>(ProviderErrorView::NotConfigured)
                    && *after == *self,
            },
            ProviderType::MockProvider => match self.mock_provider {
                Some(adapter) => {
                    &&& after.mock_provider matches Some(adapter_after)
                    &&& adapter.answers(domain_config, new_ip, outcome, &adapter_after)
                    &&& after.hetzner_provider == self.hetzner_provider
                },
                None => outcome == Err::<bool, ProviderErrorView>(ProviderErrorView::NotConfigured)
                    && *after == *self,
            },
        }
    }

    fn update_ip(&mut self, domain_config: &DomainConfig, new_ip: &IpAddress) -> (outcome:
        UpdateOutcome) {
        match domain_config.provider {
            ProviderType::HetznerProvider => match &mut self.hetzner_provider {
                Some(adapter) => adapter.update_ip(domain_config, new_ip),
                None => Err(ProviderError::NotConfigured),
            },
            ProviderType::MockProvider => match &mut self.mock_provider {
                Some(adapter) => adapter.update_ip(domain_config, new_ip),
                None => Err(ProviderError::NotConfigured),
            },
        }
    }
}

} // verus!
