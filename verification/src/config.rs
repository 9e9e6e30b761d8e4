//! The configuration that every request reads: users, the domains they own,
//! and the provider account each domain is bound to.

use vstd::prelude::*;

verus! {

/// The DNS backends a domain can be bound to.
#[derive(PartialEq, Eq, Clone, Copy, Debug, Structural)]
pub enum ProviderType {
    HetznerProvider,
    MockProvider,
}

impl ProviderType {
    /// The name of the provider type.
    pub open spec fn name(self) -> Seq<char> {
        match self {
            ProviderType::HetznerProvider => "HetznerProvider"@,
            ProviderType::MockProvider => "MockProvider"@,
        }
    }

    /// The name of the provider type.
    pub fn to_string(&self) -> (name: String)
        ensures
            name@ == self.name(),
    {
        match self {
            ProviderType::HetznerProvider => "HetznerProvider".to_owned(),
            ProviderType::MockProvider => "MockProvider".to_owned(),
        }
    }
}

/// A provider-side DNS zone: its identifier there and its base domain.
#[derive(Debug)]
pub struct Zone {
    pub id: String,
    pub name: String,
}

/// What a [`Zone`] holds, as sequences of characters.
pub struct ZoneView {
    pub id: Seq<char>,
    pub name: Seq<char>,
}

impl View for Zone {
    type V = ZoneView;

    open spec fn view(&self) -> ZoneView {
        ZoneView { id: self.id@, name: self.name@ }
    }
}

impl Clone for Zone {
    fn clone(&self) -> (copy: Zone)
        ensures
            copy@ == self@,
    {
        Zone { id: self.id.clone(), name: self.name.clone() }
    }
}

/// One host of a user: the provider account, token and zone that serve it.
#[derive(Debug)]
pub struct DomainConfig {
    pub provider: ProviderType,
    pub apitoken: String,
    pub host: String,
    pub zone: Zone,
}

/// What a [`DomainConfig`] holds.
pub struct DomainConfigView {
    pub provider: ProviderType,
    pub apitoken: Seq<char>,
    pub host: Seq<char>,
    pub zone: ZoneView,
}

impl View for DomainConfig {
    type V = DomainConfigView;

    open spec fn view(&self) -> DomainConfigView {
        DomainConfigView {
            provider: self.provider,
            apitoken: self.apitoken@,
            host: self.host@,
            zone: self.zone@,
        }
    }
}

impl DeepView for DomainConfig {
    type V = DomainConfigView;

    open spec fn deep_view(&self) -> DomainConfigView {
        self@
    }
}

impl Clone for DomainConfig {
    fn clone(&self) -> (copy: DomainConfig)
        ensures
            copy@ == self@,
    {
        DomainConfig {
            provider: self.provider,
            apitoken: self.apitoken.clone(),
            host: self.host.clone(),
            zone: self.zone.clone(),
        }
    }
}

impl DomainConfigView {
    /// The host lies in the zone: it is the zone's base domain itself, or a
    /// name below it.
    pub open spec fn host_in_zone(self) -> bool {
        ||| self.host == self.zone.name
        ||| exists|label: Seq<char>| self.host == label + seq!['.'] + self.zone.name
    }
}

/// A user with the domains they may update.
#[derive(Debug)]
pub struct User {
    pub name: String,
    pub password: String,
    pub domains: Vec<DomainConfig>,
}

/// What a [`User`] holds.
pub struct UserView {
    pub name: Seq<char>,
    pub password: Seq<char>,
    pub domains: Seq<DomainConfigView>,
}

impl View for User {
    type V = UserView;

    open spec fn view(&self) -> UserView {
        UserView {
            name: self.name@,
            password: self.password@,
            domains: self.domains.deep_view(),
        }
    }
}

impl DeepView for User {
    type V = UserView;

    open spec fn deep_view(&self) -> UserView {
        self@
    }
}

impl Clone for User {
    fn clone(&self) -> (copy: User)
        ensures
            copy@ == self@,
    {
        let mut domains: Vec<DomainConfig> = Vec::new();
        let mut i: usize = 0;
        while i < self.domains.len()
            invariant
                i <= self.domains.len(),
                domains.len() == i,
                forall|k: int| 0 <= k < i ==> domains[k]@ == self.domains[k]@,
            decreases self.domains.len() - i,
        {
            domains.push(self.domains[i].clone());
            i += 1;
        }
        assert(domains.deep_view() =~= self.domains.deep_view());
        User { name: self.name.clone(), password: self.password.clone(), domains }
    }
}

/// All users known to the service.
#[derive(Debug)]
pub struct Config {
    pub users: Vec<User>,
}

/// What a [`Config`] holds.
pub struct ConfigView {
    pub users: Seq<UserView>,
}

impl View for Config {
    type V = ConfigView;

    open spec fn view(&self) -> ConfigView {
        ConfigView { users: self.users.deep_view() }
    }
}

impl Clone for Config {
    fn clone(&self) -> (copy: Config)
        ensures
            copy@ == self@,
    {
        let mut users: Vec<User> = Vec::new();
        let mut i: usize = 0;
        while i < self.users.len()
            invariant
                i <= self.users.len(),
                users.len() == i,
                forall|k: int| 0 <= k < i ==> users[k]@ == self.users[k]@,
            decreases self.users.len() - i,
        {
            users.push(self.users[i].clone());
            i += 1;
        }
        assert(users.deep_view() =~= self.users.deep_view());
        Config { users }
    }
}

} // verus!
