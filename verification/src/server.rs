//! The request layer: who may update which host, which provider calls a
//! request leads to, and what is answered.

use vstd::prelude::*;
use crate::address::{IpAddress, IpAddressView, IpParam, IpVersion, Ipv4Address, Ipv6Address};
use crate::config::{Config, ConfigView, DomainConfig, DomainConfigView, User, UserView};
use crate::http::{Method, Status};
use crate::providers::{
    outcome_view, result_text, spec_result, updated_text, MockProvider, Provider, ProviderError,
    ProviderErrorView, UpdateOutcome,
};
use crate::search::{first_index, lemma_first_index_found, lemma_first_index_missing};
use crate::text::str_eq;

verus! {

/// Why a request is turned down before any provider is called.
#[derive(PartialEq, Eq, Clone, Copy, Debug, Structural)]
pub enum RequestError {
    /// No such user, or the password is wrong.
    AuthError,
    /// The user does not own the host.
    DomainNotFound,
    /// The address parameter of this version is no address.
    InvalidIpFormat(IpVersion),
}

/// The users called `username`.
pub open spec fn named(username: Seq<char>) -> spec_fn(UserView) -> bool {
    |user: UserView| user.name == username
}

/// The domains for `host`.
pub open spec fn hosting(host: Seq<char>) -> spec_fn(DomainConfigView) -> bool {
    |domain: DomainConfigView| domain.host == host
}

/// The position of the user that `username` and `password` authenticate:
/// the first user of that name, if the password is theirs.
pub open spec fn spec_get_user(config: ConfigView, username: Seq<char>, password: Seq<char>) -> Result<
    int,
    RequestError,
> {
    match first_index(config.users, named(username)) {
        Some(i) => if config.users[i].password == password {
            Ok(i)
        } else {
            Err(RequestError::AuthError)
        },
        None => Err(RequestError::AuthError),
    }
}

/// Authenticates a user: finds the first user called `username` and checks
/// the password. An unknown name and a wrong password fail alike.
pub fn get_user<'a>(config: &'a Config, username: &str, password: &str) -> (res: Result<
    &'a User,
    RequestError,
>)
    ensures
        match res {
            Ok(user) => spec_get_user(config@, username@, password@) matches Ok(i) && *user
                == config.users[i],
            Err(e) => spec_get_user(config@, username@, password@) == Err::<int, RequestError>(e),
        },
{
    let mut i: usize = 0;
    while i < config.users.len()
        invariant
            i <= config.users.len(),
            forall|j: int| 0 <= j < i ==> !named(username@)(#[trigger] config@.users[j]),
        decreases config.users.len() - i,
    {
        let user = &config.users[i];
        assert(config@.users[i as int] == user@);
        if str_eq(user.name.as_str(), username) {
            proof {
                lemma_first_index_found(config@.users, named(username@), i as int);
            }
            if str_eq(user.password.as_str(), password) {
                return Ok(user);
            } else {
                return Err(RequestError::AuthError);
            }
        }
        i += 1;
    }
    proof {
        lemma_first_index_missing(config@.users, named(username@));
    }
    Err(RequestError::AuthError)
}

/// The position of the domain of `user` for `host`: the first one with that
/// host.
pub open spec fn spec_get_domain_config(user: UserView, host: Seq<char>) -> Result<
    int,
    RequestError,
> {
    match first_index(user.domains, hosting(host)) {
        Some(j) => Ok(j),
        None => Err(RequestError::DomainNotFound),
    }
}

/// Finds the configuration of `host` among the domains of `user`.
pub fn get_domain_config<'a>(user: &'a User, host: &str) -> (res: Result<
    &'a DomainConfig,
    RequestError,
>)
    ensures
        match res {
            Ok(domain) => spec_get_domain_config(user@, host@) matches Ok(j) && *domain
                == user.domains[j],
            Err(e) => spec_get_domain_config(user@, host@) == Err::<int, RequestError>(e),
        },
{
    let mut j: usize = 0;
    while j < user.domains.len()
        invariant
            j <= user.domains.len(),
            forall|k: int| 0 <= k < j ==> !hosting(host@)(#[trigger] user@.domains[k]),
        decreases user.domains.len() - j,
    {
        let domain = &user.domains[j];
        assert(user@.domains[j as int] == domain@);
        if str_eq(domain.host.as_str(), host) {
            proof {
                lemma_first_index_found(user@.domains, hosting(host@), j as int);
            }
            return Ok(domain);
        }
        j += 1;
    }
    proof {
        lemma_first_index_missing(user@.domains, hosting(host@));
    }
    Err(RequestError::DomainNotFound)
}

/// The provider calls that a request leads to.
pub struct UpdatePlan {
    /// The domain that is updated.
    pub domain_config: DomainConfigView,
    /// The IPv4 address to set, if one was supplied.
    pub ipv4: Option<Seq<char>>,
    /// The IPv6 address to set, if one was supplied.
    pub ipv6: Option<Seq<char>>,
}

/// What a request leads to. It is turned down, in this order, when the
/// user is not authenticated, when the user does not own the host, when the
/// IPv4 parameter is no address, when the IPv6 parameter is no address.
/// Otherwise the host is updated to each address that was supplied.
pub open spec fn spec_plan(
    config: ConfigView,
    username: Seq<char>,
    password: Seq<char>,
    host: Seq<char>,
    ip: IpParam<Seq<char>>,
    ip6: IpParam<Seq<char>>,
) -> Result<UpdatePlan, RequestError> {
    match spec_get_user(config, username, password) {
        Err(e) => Err(e),
        Ok(i) => match spec_get_domain_config(config.users[i], host) {
            Err(e) => Err(e),
            Ok(j) => if ip is Invalid {
                Err(RequestError::InvalidIpFormat(IpVersion::V4))
            } else if ip6 is Invalid {
                Err(RequestError::InvalidIpFormat(IpVersion::V6))
            } else {
                Ok(
                    UpdatePlan {
                        domain_config: config.users[i].domains[j],
                        ipv4: ip.address(),
                        ipv6: ip6.address(),
                    },
                )
            },
        },
    }
}

/// The answer to a request that is turned down.
pub open spec fn spec_rejection(error: RequestError) -> (Status, Seq<char>) {
    match error {
        RequestError::AuthError => (Status::Unauthorized, "Invalid user"@),
        RequestError::DomainNotFound => (Status::BadRequest, "Invalid domain"@),
        RequestError::InvalidIpFormat(IpVersion::V4) => (
            Status::BadRequest,
            "Invalid IPv4 address"@,
        ),
        RequestError::InvalidIpFormat(IpVersion::V6) => (
            Status::BadRequest,
            "Invalid IPv6 address"@,
        ),
    }
}

/// The answer to a request that is turned down.
pub fn rejection(error: RequestError) -> (res: (Status, String))
    ensures
        (res.0, res.1@) == spec_rejection(error),
{
    match error {
        RequestError::AuthError => (Status::Unauthorized, "Invalid user".to_owned()),
        RequestError::DomainNotFound => (Status::BadRequest, "Invalid domain".to_owned()),
        RequestError::InvalidIpFormat(IpVersion::V4) => (
            Status::BadRequest,
            "Invalid IPv4 address".to_owned(),
        ),
        RequestError::InvalidIpFormat(IpVersion::V6) => (
            Status::BadRequest,
            "Invalid IPv6 address".to_owned(),
        ),
    }
}

/// The status that the outcome of one update calls for: success for an
/// update that went through or was not asked for, a bad request for a host
/// outside its zone, a server error for every other failure.
pub open spec fn spec_outcome_status(outcome: Option<Result<bool, ProviderErrorView>>) -> Status {
    match outcome {
        None => Status::Success,
        Some(Ok(_)) => Status::Success,
        Some(Err(ProviderErrorView::HostZoneMismatch)) => Status::BadRequest,
        Some(Err(_)) => Status::InternalServerError,
    }
}

/// The graver of two statuses: a server error before a bad request, a bad
/// request before success.
pub open spec fn spec_graver(a: Status, b: Status) -> Status {
    if a == Status::InternalServerError || b == Status::InternalServerError {
        Status::InternalServerError
    } else if a == Status::Success {
        b
    } else {
        a
    }
}

/// The line of the answer for one update: its result string and a newline,
/// or nothing where the update was not asked for.
pub open spec fn spec_line(version: IpVersion, outcome: Option<Result<bool, ProviderErrorView>>) -> Seq<
    char,
> {
    match outcome {
        None => Seq::empty(),
        Some(outcome) => match spec_result(version, outcome) {
            Ok(text) => text + seq!['\n'],
            Err(text) => text + seq!['\n'],
        },
    }
}

/// The answer to a request after its updates: one line for each, IPv4
/// first, under the gravest status; or the note that no address was
/// supplied.
pub open spec fn spec_respond(
    ipv4: Option<Result<bool, ProviderErrorView>>,
    ipv6: Option<Result<bool, ProviderErrorView>>,
) -> (Status, Seq<char>) {
    if ipv4 is None && ipv6 is None {
        (Status::Success, "No IP address specified"@)
    } else {
        (
            spec_graver(spec_outcome_status(ipv4), spec_outcome_status(ipv6)),
            spec_line(IpVersion::V4, ipv4) + spec_line(IpVersion::V6, ipv6),
        )
    }
}

/// What an outcome holds, where there is one.
pub open spec fn outcome_option_view(outcome: Option<UpdateOutcome>) -> Option<
    Result<bool, ProviderErrorView>,
> {
    match outcome {
        Some(outcome) => Some(outcome_view(outcome)),
        None => None,
    }
}

/// The status that the outcome of one update calls for.
fn outcome_status(outcome: &Option<UpdateOutcome>) -> (status: Status)
    ensures
        status == spec_outcome_status(outcome_option_view(*outcome)),
{
    match outcome {
        None => Status::Success,
        Some(Ok(_)) => Status::Success,
        Some(Err(ProviderError::HostZoneMismatch)) => Status::BadRequest,
        Some(Err(_)) => Status::InternalServerError,
    }
}

/// The graver of two statuses.
fn graver(a: Status, b: Status) -> (status: Status)
    ensures
        status == spec_graver(a, b),
{
    if a == Status::InternalServerError || b == Status::InternalServerError {
        Status::InternalServerError
    } else if a == Status::Success {
        b
    } else {
        a
    }
}

/// Appends to `body` the line for one update.
fn push_line(body: &mut String, version: IpVersion, outcome: &Option<UpdateOutcome>)
    ensures
        final(body)@ == old(body)@ + spec_line(version, outcome_option_view(*outcome)),
{
    match outcome {
        None => {
            assert(body@ =~= old(body)@ + Seq::<char>::empty());
        },
        Some(outcome) => {
            let text = match result_text(version, outcome) {
                Ok(text) => text,
                Err(text) => text,
            };
            body.append(text.as_str());
            body.append("\n");
            proof {
                reveal_strlit("\n");
                assert("\n"@ =~= seq!['\n']);
                assert(body@ =~= old(body)@ + (text@ + seq!['\n']));
            }
        },
    }
}

/// Builds the answer to a request from the outcomes of its updates.
pub fn respond(ipv4: &Option<UpdateOutcome>, ipv6: &Option<UpdateOutcome>) -> (res: (
    Status,
    String,
))
    ensures
        (res.0, res.1@) == spec_respond(outcome_option_view(*ipv4), outcome_option_view(*ipv6)),
{
    if ipv4.is_none() && ipv6.is_none() {
        return (Status::Success, "No IP address specified".to_owned());
    }
    let status = graver(outcome_status(ipv4), outcome_status(ipv6));
    let mut body = String::new();
    push_line(&mut body, IpVersion::V4, ipv4);
    push_line(&mut body, IpVersion::V6, ipv6);
    assert(body@ =~= spec_line(IpVersion::V4, outcome_option_view(*ipv4)) + spec_line(
        IpVersion::V6,
        outcome_option_view(*ipv6),
    ));
    (status, body)
}

/// Whether `before`, `outcome` and `after` fit one planned update: where no
/// address was supplied, no call was made and the provider is as it was;
/// where one was, exactly one call was made, with the domain and that
/// address, and returned the outcome.
pub open spec fn spec_call<P: Provider>(
    before: P,
    domain_config: DomainConfigView,
    version: IpVersion,
    address: Option<Seq<char>>,
    outcome: Option<Result<bool, ProviderErrorView>>,
    after: P,
) -> bool {
    match address {
        None => outcome is None && after == before,
        Some(text) => {
            &&& outcome matches Some(outcome)
            &&& before.answers(domain_config, IpAddressView { version, text }, outcome, &after)
        },
    }
}

/// What [`update`] does to the provider and answers.
///
/// A request that is turned down is answered with its rejection, and makes
/// no provider call. Every other request makes one call for the IPv4
/// address if one was supplied, then one for the IPv6 address if one was
/// supplied, and is answered from the outcomes of those calls.
pub open spec fn update_ensures<P: Provider>(
    before: P,
    username: Seq<char>,
    password: Seq<char>,
    host: Seq<char>,
    ip: IpParam<Seq<char>>,
    ip6: IpParam<Seq<char>>,
    config: ConfigView,
    answer: (Status, Seq<char>),
    after: P,
) -> bool {
    match spec_plan(config, username, password, host, ip, ip6) {
        Err(error) => answer == spec_rejection(error) && after == before,
        Ok(plan) => exists|
            ipv4: Option<Result<bool, ProviderErrorView>>,
            ipv6: Option<Result<bool, ProviderErrorView>>,
            between: P,
        |
            {
                &&& #[trigger] spec_call(
                    before,
                    plan.domain_config,
                    IpVersion::V4,
                    plan.ipv4,
                    ipv4,
                    between,
                )
                &&& #[trigger] spec_call(
                    between,
                    plan.domain_config,
                    IpVersion::V6,
                    plan.ipv6,
                    ipv6,
                    after,
                )
                &&& answer == spec_respond(ipv4, ipv6)
            },
    }
}

/// Handles one update request.
///
/// `user` and `password` authenticate the caller, `host` names the domain
/// to update, `ip` and `ip6` are the address parameters as classified by
/// [`IpParam::from_query`]. The provider calls go to `providers`.
pub fn update<P: Provider>(
    user: &str,
    password: &str,
    host: &str,
    ip: IpParam<Ipv4Address>,
    ip6: IpParam<Ipv6Address>,
    config: &Config,
    providers: &mut P,
) -> (res: (Status, String))
    ensures
        update_ensures(
            *old(providers),
            user@,
            password@,
            host@,
            ip@,
            ip6@,
            config@,
            (res.0, res.1@),
            *final(providers),
        ),
{
    let account = match get_user(config, user, password) {
        Ok(account) => account,
        Err(e) => {
            return rejection(e);
        },
    };
    let domain_config = match get_domain_config(account, host) {
        Ok(domain_config) => domain_config,
        Err(e) => {
            return rejection(e);
        },
    };
    let ipv4 = match ip {
        IpParam::Absent => None,
        IpParam::Invalid => {
            return rejection(RequestError::InvalidIpFormat(IpVersion::V4));
        },
        IpParam::Valid(address) => Some(address),
    };
    let ipv6 = match ip6 {
        IpParam::Absent => None,
        IpParam::Invalid => {
            return rejection(RequestError::InvalidIpFormat(IpVersion::V6));
        },
        IpParam::Valid(address) => Some(address),
    };
    let ghost plan = spec_plan(config@, user@, password@, host@, ip@, ip6@)->Ok_0;
    let outcome4 = match ipv4 {
        Some(address) => Some(providers.update_ip(domain_config, &IpAddress::V4(address))),
        None => None,
    };
    let ghost between = *providers;
    let outcome6 = match ipv6 {
        Some(address) => Some(providers.update_ip(domain_config, &IpAddress::V6(address))),
        None => None,
    };
    let res = respond(&outcome4, &outcome6);
    proof {
        assert(spec_call(
            *old(providers),
            plan.domain_config,
            IpVersion::V4,
            plan.ipv4,
            outcome_option_view(outcome4),
            between,
        ));
        assert(spec_call(
            between,
            plan.domain_config,
            IpVersion::V6,
            plan.ipv6,
            outcome_option_view(outcome6),
            *providers,
        ));
    }
    res
}

/// The status of an answer tells how the updates went: success exactly
/// when no update failed, a server error exactly when one failed for
/// another reason than a host outside its zone, and a bad request in the
/// remaining case, that every failure is such a host.
pub proof fn law_status_tells_failures(
    ipv4: Option<Result<bool, ProviderErrorView>>,
    ipv6: Option<Result<bool, ProviderErrorView>>,
)
    ensures
        ({
            let status = spec_respond(ipv4, ipv6).0;
            let failed = |outcome: Option<Result<bool, ProviderErrorView>>|
                outcome matches Some(Err(_));
            let outside = |outcome: Option<Result<bool, ProviderErrorView>>|
                outcome == Some(
                    Err::<bool, ProviderErrorView>(ProviderErrorView::HostZoneMismatch),
                );
            &&& status == Status::Success <==> !failed(ipv4) && !failed(ipv6)
            &&& status == Status::InternalServerError <==> {
                ||| failed(ipv4) && !outside(ipv4)
                ||| failed(ipv6) && !outside(ipv6)
            }
            &&& status != Status::Unauthorized
        }),
{
}

/// A wrong password for a known user is answered as unauthorized, and no
/// provider is called.
pub proof fn law_wrong_password_is_unauthorized<P: Provider>(
    before: P,
    username: Seq<char>,
    password: Seq<char>,
    host: Seq<char>,
    ip: IpParam<Seq<char>>,
    ip6: IpParam<Seq<char>>,
    config: ConfigView,
    answer: (Status, Seq<char>),
    after: P,
)
    requires
        update_ensures(before, username, password, host, ip, ip6, config, answer, after),
        first_index(config.users, named(username)) matches Some(i) && config.users[i].password
            != password,
    ensures
        spec_plan(config, username, password, host, ip, ip6) == Err::<UpdatePlan, RequestError>(
            RequestError::AuthError,
        ),
        answer == (Status::Unauthorized, "Invalid user"@),
        after == before,
{
}

/// A host that an authenticated user does not own is answered as a bad
/// request, and no provider is called.
pub proof fn law_unknown_domain_is_rejected<P: Provider>(
    before: P,
    username: Seq<char>,
    password: Seq<char>,
    host: Seq<char>,
    ip: IpParam<Seq<char>>,
    ip6: IpParam<Seq<char>>,
    config: ConfigView,
    answer: (Status, Seq<char>),
    after: P,
)
    requires
        update_ensures(before, username, password, host, ip, ip6, config, answer, after),
        spec_get_user(config, username, password) matches Ok(i) && first_index(
            config.users[i].domains,
            hosting(host),
        ) is None,
    ensures
        spec_plan(config, username, password, host, ip, ip6) == Err::<UpdatePlan, RequestError>(
            RequestError::DomainNotFound,
        ),
        answer == (Status::BadRequest, "Invalid domain"@),
        after == before,
{
}

/// A request of an authenticated user for a host of theirs that supplies
/// no address is answered with success and the note that nothing was
/// specified, and no provider is called.
pub proof fn law_nothing_supplied_calls_nothing<P: Provider>(
    before: P,
    username: Seq<char>,
    password: Seq<char>,
    host: Seq<char>,
    config: ConfigView,
    answer: (Status, Seq<char>),
    after: P,
)
    requires
        update_ensures(
            before,
            username,
            password,
            host,
            IpParam::Absent,
            IpParam::Absent,
            config,
            answer,
            after,
        ),
        spec_get_user(config, username, password) matches Ok(i) && spec_get_domain_config(
            config.users[i],
            host,
        ) is Ok,
    ensures
        answer == (Status::Success, "No IP address specified"@),
        after == before,
{
}

/// Each address that is supplied leads to exactly one provider call, with
/// an address of its own version, and an address that is not supplied to
/// none: the calls made are the IPv4 call, if any, and then the IPv6 call,
/// if any.
pub proof fn law_one_call_per_supplied_version<P: Provider>(
    before: P,
    username: Seq<char>,
    password: Seq<char>,
    host: Seq<char>,
    ip: IpParam<Seq<char>>,
    ip6: IpParam<Seq<char>>,
    config: ConfigView,
    answer: (Status, Seq<char>),
    after: P,
)
    requires
        update_ensures(before, username, password, host, ip, ip6, config, answer, after),
        spec_plan(config, username, password, host, ip, ip6) is Ok,
    ensures
        ({
            let domain = spec_plan(config, username, password, host, ip, ip6)->Ok_0.domain_config;
            &&& ip is Absent && ip6 is Absent ==> after == before
            &&& ip is Valid && ip6 is Absent ==> exists|
                outcome: Result<bool, ProviderErrorView>,
            |
                {
                    &&& #[trigger] before.answers(
                        domain,
                        IpAddressView { version: IpVersion::V4, text: ip->Valid_0 },
                        outcome,
                        &after,
                    )
                    &&& answer == spec_respond(Some(outcome), None)
                }
            &&& ip is Absent && ip6 is Valid ==> exists|
                outcome: Result<bool, ProviderErrorView>,
            |
                {
                    &&& #[trigger] before.answers(
                        domain,
                        IpAddressView { version: IpVersion::V6, text: ip6->Valid_0 },
                        outcome,
                        &after,
                    )
                    &&& answer == spec_respond(None, Some(outcome))
                }
            &&& ip is Valid && ip6 is Valid ==> exists|
                first: Result<bool, ProviderErrorView>,
                second: Result<bool, ProviderErrorView>,
                between: P,
            |
                {
                    &&& #[trigger] before.answers(
                        domain,
                        IpAddressView { version: IpVersion::V4, text: ip->Valid_0 },
                        first,
                        &between,
                    )
                    &&& #[trigger] between.answers(
                        domain,
                        IpAddressView { version: IpVersion::V6, text: ip6->Valid_0 },
                        second,
                        &after,
                    )
                    &&& answer == spec_respond(Some(first), Some(second))
                }
        }),
{
    let plan = spec_plan(config, username, password, host, ip, ip6)->Ok_0;
    let (ipv4, ipv6, between) = choose|
        ipv4: Option<Result<bool, ProviderErrorView>>,
        ipv6: Option<Result<bool, ProviderErrorView>>,
        between: P,
    |
        {
            &&& #[trigger] spec_call(
                before,
                plan.domain_config,
                IpVersion::V4,
                plan.ipv4,
                ipv4,
                between,
            )
            &&& #[trigger] spec_call(
                between,
                plan.domain_config,
                IpVersion::V6,
                plan.ipv6,
                ipv6,
                after,
            )
            &&& answer == spec_respond(ipv4, ipv6)
        };
    if ip is Valid && ip6 is Absent {
        assert(before.answers(
            plan.domain_config,
            IpAddressView { version: IpVersion::V4, text: ip->Valid_0 },
            ipv4->Some_0,
            &after,
        ));
    }
    if ip is Absent && ip6 is Valid {
        assert(before.answers(
            plan.domain_config,
            IpAddressView { version: IpVersion::V6, text: ip6->Valid_0 },
            ipv6->Some_0,
            &after,
        ));
    }
    if ip is Valid && ip6 is Valid {
        assert(before.answers(
            plan.domain_config,
            IpAddressView { version: IpVersion::V4, text: ip->Valid_0 },
            ipv4->Some_0,
            &between,
        ));
        assert(between.answers(
            plan.domain_config,
            IpAddressView { version: IpVersion::V6, text: ip6->Valid_0 },
            ipv6->Some_0,
            &after,
        ));
    }
}

/// Against the test double the answer is fixed by the script: a request
/// that supplies an IPv4 address alone makes the double log one call, with
/// that address, and is answered from the next scripted outcome. Where that
/// outcome is a change, the answer is a success that says so.
pub proof fn law_scripted_ipv4_update(
    before: MockProvider,
    username: Seq<char>,
    password: Seq<char>,
    host: Seq<char>,
    address: Seq<char>,
    config: ConfigView,
    answer: (Status, Seq<char>),
    after: MockProvider,
)
    requires
        update_ensures(
            before,
            username,
            password,
            host,
            IpParam::Valid(address),
            IpParam::Absent,
            config,
            answer,
            after,
        ),
        spec_plan(config, username, password, host, IpParam::Valid(address), IpParam::Absent) is Ok,
    ensures
        ({
            let domain = spec_plan(
                config,
                username,
                password,
                host,
                IpParam::Valid(address),
                IpParam::Absent,
            )->Ok_0.domain_config;
            &&& answer == spec_respond(Some(before@.next_outcome()), None)
            &&& after@ == before@.after_call(
                domain,
                IpAddressView { version: IpVersion::V4, text: address },
            )
            &&& before@.next_outcome() == Ok::<bool, ProviderErrorView>(true) ==> answer == (
                Status::Success,
                updated_text(IpVersion::V4) + seq!['\n'],
            )
        }),
{
    law_one_call_per_supplied_version(
        before,
        username,
        password,
        host,
        IpParam::Valid(address),
        IpParam::Absent,
        config,
        answer,
        after,
    );
    assert(spec_line(IpVersion::V6, None) =~= Seq::<char>::empty());
    if before@.next_outcome() == Ok::<bool, ProviderErrorView>(true) {
        assert(spec_line(IpVersion::V4, Some(before@.next_outcome())) + Seq::<char>::empty()
            =~= updated_text(IpVersion::V4) + seq!['\n']);
    }
}

/// The endpoint that the service offers: the method and path it answers
/// to under its mount point, and the query parameters it reads.
#[derive(Debug)]
pub struct Endpoint {
    pub method: Method,
    /// Where the service is mounted.
    pub base: String,
    /// The path of the endpoint below the mount point.
    pub path: String,
    /// The names of the query parameters, in the order of [`update`]'s
    /// parameters.
    pub parameters: Vec<String>,
}

/// What an [`Endpoint`] holds.
pub struct EndpointView {
    pub method: Method,
    pub base: Seq<char>,
    pub path: Seq<char>,
    pub parameters: Seq<Seq<char>>,
}

impl View for Endpoint {
    type V = EndpointView;

    open spec fn view(&self) -> EndpointView {
        EndpointView {
            method: self.method,
            base: self.base@,
            path: self.path@,
            parameters: self.parameters.deep_view(),
        }
    }
}

/// The query part of a route pattern: each parameter's name in angle
/// brackets, with `&` between them.
pub open spec fn query_pattern(parameters: Seq<Seq<char>>) -> Seq<char>
    decreases parameters.len(),
{
    if parameters.len() == 0 {
        Seq::empty()
    } else if parameters.len() == 1 {
        seq!['<'] + parameters[0] + seq!['>']
    } else {
        query_pattern(parameters.drop_last()) + seq!['&', '<'] + parameters.last() + seq!['>']
    }
}

impl EndpointView {
    /// The route pattern of the endpoint: its path, and after a `?` the
    /// pattern of its query where it reads parameters.
    pub open spec fn pattern(self) -> Seq<char> {
        if self.parameters.len() == 0 {
            self.path
        } else {
            self.path + seq!['?'] + query_pattern(self.parameters)
        }
    }
}

impl Endpoint {
    /// The route pattern of the endpoint, as the transport mounts it.
    pub fn pattern(&self) -> (pattern: String)
        ensures
            pattern@ == self@.pattern(),
    {
        proof {
            reveal_strlit("?");
            reveal_strlit("<");
            reveal_strlit(">");
            reveal_strlit("&");
        }
        let mut pattern = self.path.clone();
        if self.parameters.len() == 0 {
            return pattern;
        }
        pattern.append("?");
        let ghost names = self.parameters.deep_view();
        let mut i: usize = 0;
        while i < self.parameters.len()
            invariant
                i <= self.parameters.len(),
                names == self.parameters.deep_view(),
                pattern@ == self.path@ + seq!['?'] + query_pattern(names.take(i as int)),
                "<"@ == seq!['<'],
                ">"@ == seq!['>'],
                "&"@ == seq!['&'],
            decreases self.parameters.len() - i,
        {
            let ghost before = pattern@;
            if i > 0 {
                pattern.append("&");
            }
            pattern.append("<");
            pattern.append(self.parameters[i].as_str());
            pattern.append(">");
            proof {
                let taken = names.take(i + 1);
                assert(taken.drop_last() =~= names.take(i as int));
                assert(taken.last() == names[i as int]);
                assert(names[i as int] == self.parameters[i as int]@);
                if i > 0 {
                    assert(pattern@ =~= before + seq!['&', '<'] + names[i as int] + seq!['>']);
                } else {
                    assert(query_pattern(names.take(0)) =~= Seq::<char>::empty());
                    assert(pattern@ =~= self.path@ + seq!['?'] + (seq!['<'] + names[0] + seq![
                        '>',
                    ]));
                }
                assert(pattern@ =~= self.path@ + seq!['?'] + query_pattern(taken));
            }
            i += 1;
        }
        assert(names.take(i as int) =~= names);
        pattern
    }
}

/// The service's endpoint: `GET /update` under the mount point `/`, with
/// the query parameters `user`, `password`, `host`, `ip` and `ip6`.
pub open spec fn spec_rocket() -> EndpointView {
    EndpointView {
        method: Method::Get,
        base: "/"@,
        path: "/update"@,
        parameters: seq!["user"@, "password"@, "host"@, "ip"@, "ip6"@],
    }
}

/// Describes the service as it is to be mounted: the one endpoint that
/// [`update`] answers.
pub fn rocket() -> (endpoint: Endpoint)
    ensures
        endpoint@ == spec_rocket(),
{
    let mut parameters: Vec<String> = Vec::new();
    parameters.push("user".to_owned());
    parameters.push("password".to_owned());
    parameters.push("host".to_owned());
    parameters.push("ip".to_owned());
    parameters.push("ip6".to_owned());
    assert(parameters.deep_view() =~= seq!["user"@, "password"@, "host"@, "ip"@, "ip6"@]);
    Endpoint { method: Method::Get, base: "/".to_owned(), path: "/update".to_owned(), parameters }
}

} // verus!
