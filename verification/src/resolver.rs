//! From a host and the name of its zone to the label of the DNS record that
//! stands for the host inside that zone.

use vstd::prelude::*;
use crate::config::{DomainConfig, DomainConfigView};
use crate::text::{chars_end_with, chars_of, ends_with, str_eq};

verus! {

/// The host does not lie in the zone it is configured with.
#[derive(PartialEq, Eq, Clone, Copy, Debug, Structural)]
pub struct HostZoneMismatch;

/// The label of the zone apex.
pub open spec fn apex() -> Seq<char> {
    seq!['@']
}

/// `s` without one trailing dot, if it has one.
pub open spec fn without_trailing_dot(s: Seq<char>) -> Seq<char> {
    if s.len() > 0 && s.last() == '.' {
        s.drop_last()
    } else {
        s
    }
}

/// The record label of `host` in the zone `zone_name`: `@` for the zone's
/// own name; for a host that ends with the zone's name, what stands before
/// the zone's name, less one separating dot; for no other host.
pub open spec fn spec_resolve(host: Seq<char>, zone_name: Seq<char>) -> Result<
    Seq<char>,
    HostZoneMismatch,
> {
    if host == zone_name {
        Ok(apex())
    } else if ends_with(host, zone_name) {
        Ok(without_trailing_dot(host.subrange(0, host.len() - zone_name.len())))
    } else {
        Err(HostZoneMismatch)
    }
}

/// The characters of a resolved label, or the error.
pub open spec fn label_view(res: Result<String, HostZoneMismatch>) -> Result<
    Seq<char>,
    HostZoneMismatch,
> {
    match res {
        Ok(label) => Ok(label@),
        Err(e) => Err(e),
    }
}

/// Resolves the record label of `host` in the zone named `zone_name`.
///
/// A host equal to the zone's name is the apex, `@`. A host that ends with
/// the zone's name has as its label what stands before it, less one
/// separating dot. Any other host lies outside the zone.
pub fn resolve(host: &str, zone_name: &str) -> (res: Result<String, HostZoneMismatch>)
    ensures
        label_view(res) == spec_resolve(host@, zone_name@),
{
    if str_eq(host, zone_name) {
        let label = "@".to_owned();
        proof {
            reveal_strlit("@");
            assert(label@ =~= apex());
        }
        return Ok(label);
    }
    let host_chars = chars_of(host);
    let zone_chars = chars_of(zone_name);
    if !chars_end_with(&host_chars, &zone_chars) {
        return Err(HostZoneMismatch);
    }
    let mut end: usize = host_chars.len() - zone_chars.len();
    let ghost prefix = host@.subrange(0, end as int);
    if end > 0 && host_chars[end - 1] == '.' {
        end -= 1;
        assert(host@.subrange(0, end as int) =~= prefix.drop_last());
    }
    let label = host.substring_char(0, end).to_owned();
    Ok(label)
}

impl DomainConfig {
    /// Whether the host lies in the zone: it is the zone's base domain, or
    /// a name below it.
    pub fn host_in_zone(&self) -> (yes: bool)
        ensures
            yes == self@.host_in_zone(),
    {
        if str_eq(self.host.as_str(), self.zone.name.as_str()) {
            return true;
        }
        let host = chars_of(self.host.as_str());
        let zone = chars_of(self.zone.name.as_str());
        if !chars_end_with(&host, &zone) || host.len() == zone.len() {
            proof {
                lemma_below_zone(self@.host, self@.zone.name);
            }
            return false;
        }
        let dot: usize = host.len() - zone.len() - 1;
        proof {
            lemma_below_zone(self@.host, self@.zone.name);
        }
        host[dot] == '.'
    }
}

/// A host is a name below a zone exactly when it ends with the zone's name
/// and has a dot just before it.
pub proof fn lemma_below_zone(host: Seq<char>, zone_name: Seq<char>)
    ensures
        (exists|label: Seq<char>| host == label + seq!['.'] + zone_name) <==> {
            &&& ends_with(host, zone_name)
            &&& host.len() > zone_name.len()
            &&& host[host.len() - zone_name.len() - 1] == '.'
        },
{
    if exists|label: Seq<char>| host == label + seq!['.'] + zone_name {
        let label = choose|label: Seq<char>| host == label + seq!['.'] + zone_name;
        assert(host.subrange(host.len() - zone_name.len(), host.len() as int) =~= zone_name);
    }
    if ends_with(host, zone_name) && host.len() > zone_name.len() && host[host.len()
        - zone_name.len() - 1] == '.' {
        let label = host.subrange(0, host.len() - zone_name.len() - 1);
        assert(host =~= label + seq!['.'] + zone_name);
    }
}

/// The zone's own name resolves to the apex.
pub proof fn law_apex(zone_name: Seq<char>)
    ensures
        spec_resolve(zone_name, zone_name) == Ok::<Seq<char>, HostZoneMismatch>(apex()),
{
}

/// A name below the zone resolves to what stands before the dot and the
/// zone's name.
pub proof fn law_subdomain(label: Seq<char>, zone_name: Seq<char>)
    ensures
        spec_resolve(label + seq!['.'] + zone_name, zone_name) == Ok::<
            Seq<char>,
            HostZoneMismatch,
        >(label),
{
    let host = label + seq!['.'] + zone_name;
    assert(host.subrange(host.len() - zone_name.len(), host.len() as int) =~= zone_name);
    let prefix = host.subrange(0, host.len() - zone_name.len());
    assert(prefix =~= label + seq!['.']);
    assert(prefix.drop_last() =~= label);
}

/// A host that does not end with the zone's name lies outside the zone.
pub proof fn law_outside(host: Seq<char>, zone_name: Seq<char>)
    requires
        !ends_with(host, zone_name),
    ensures
        spec_resolve(host, zone_name) == Err::<Seq<char>, HostZoneMismatch>(HostZoneMismatch),
{
    assert(host != zone_name) by {
        if host == zone_name {
            assert(host.subrange(0, host.len() as int) =~= host);
        }
    }
}

/// Every host that lies in its zone resolves, and its label leads back to
/// it: the zone's name has the apex, and any other host is its label, a dot
/// and the zone's name.
pub proof fn law_host_in_zone_resolves(domain_config: DomainConfigView)
    requires
        domain_config.host_in_zone(),
    ensures
        spec_resolve(domain_config.host, domain_config.zone.name) matches Ok(label) && {
            if domain_config.host == domain_config.zone.name {
                label == apex()
            } else {
                domain_config.host == label + seq!['.'] + domain_config.zone.name
            }
        },
{
    if domain_config.host != domain_config.zone.name {
        let label = choose|label: Seq<char>|
            domain_config.host == label + seq!['.'] + domain_config.zone.name;
        law_subdomain(label, domain_config.zone.name);
    }
}

} // verus!
