//! DNS records as a provider lists them.

use vstd::prelude::*;
use crate::text::{decimal, push_decimal};

verus! {

/// The type of a DNS record.
#[derive(PartialEq, Eq, Clone, Copy, Debug, Structural)]
pub enum RecordType {
    A,
    AAAA,
    NS,
    MX,
    CNAME,
    RP,
    TXT,
    SOA,
    HINFO,
    SRV,
    DANE,
    TLSA,
    DS,
    CAA,
}

impl RecordType {
    /// The name of the type, as DNS writes it.
    pub open spec fn name(self) -> Seq<char> {
        match self {
            RecordType::A => "A"@,
            RecordType::AAAA => "AAAA"@,
            RecordType::NS => "NS"@,
            RecordType::MX => "MX"@,
            RecordType::CNAME => "CNAME"@,
            RecordType::RP => "RP"@,
            RecordType::TXT => "TXT"@,
            RecordType::SOA => "SOA"@,
            RecordType::HINFO => "HINFO"@,
            RecordType::SRV => "SRV"@,
            RecordType::DANE => "DANE"@,
            RecordType::TLSA => "TLSA"@,
            RecordType::DS => "DS"@,
            RecordType::CAA => "CAA"@,
        }
    }

    /// The name of the type, as DNS writes it.
    pub fn as_str(&self) -> (name: &'static str)
        ensures
            name@ == self.name(),
    {
        match self {
            RecordType::A => "A",
            RecordType::AAAA => "AAAA",
            RecordType::NS => "NS",
            RecordType::MX => "MX",
            RecordType::CNAME => "CNAME",
            RecordType::RP => "RP",
            RecordType::TXT => "TXT",
            RecordType::SOA => "SOA",
            RecordType::HINFO => "HINFO",
            RecordType::SRV => "SRV",
            RecordType::DANE => "DANE",
            RecordType::TLSA => "TLSA",
            RecordType::DS => "DS",
            RecordType::CAA => "CAA",
        }
    }

    /// The name of the type, as DNS writes it.
    pub fn to_string(&self) -> (name: String)
        ensures
            name@ == self.name(),
    {
        self.as_str().to_owned()
    }
}

/// One DNS entry inside a zone. `name` is the label relative to the zone,
/// or `@` for the zone apex.
#[derive(Debug)]
pub struct Record {
    pub record_type: RecordType,
    pub id: String,
    pub zone_id: String,
    pub name: String,
    pub value: String,
    pub ttl: Option<u64>,
}

/// What a [`Record`] holds.
pub struct RecordView {
    pub record_type: RecordType,
    pub id: Seq<char>,
    pub zone_id: Seq<char>,
    pub name: Seq<char>,
    pub value: Seq<char>,
    pub ttl: Option<u64>,
}

impl RecordView {
    /// This record with `value` in place of its value, all else kept.
    pub open spec fn with_value(self, value: Seq<char>) -> RecordView {
        RecordView { value, ..self }
    }

    /// The record on one line: name, time to live (0 where it has none),
    /// type and value, with one space between them.
    pub open spec fn text(self) -> Seq<char> {
        let ttl: u64 = match self.ttl {
            Some(ttl) => ttl,
            None => 0,
        };
        self.name + seq![' '] + decimal(ttl as nat) + seq![' '] + self.record_type.name() + seq![
            ' ',
        ] + self.value
    }
}

impl View for Record {
    type V = RecordView;

    open spec fn view(&self) -> RecordView {
        RecordView {
            record_type: self.record_type,
            id: self.id@,
            zone_id: self.zone_id@,
            name: self.name@,
            value: self.value@,
            ttl: self.ttl,
        }
    }
}

impl DeepView for Record {
    type V = RecordView;

    open spec fn deep_view(&self) -> RecordView {
        self@
    }
}

impl Clone for Record {
    fn clone(&self) -> (copy: Record)
        ensures
            copy@ == self@,
    {
        Record {
            record_type: self.record_type,
            id: self.id.clone(),
            zone_id: self.zone_id.clone(),
            name: self.name.clone(),
            value: self.value.clone(),
            ttl: self.ttl,
        }
    }
}

impl Record {
    /// The record on one line: name, time to live (0 where it has none),
    /// type and value, with one space between them.
    pub fn to_string(&self) -> (text: String)
        ensures
            text@ == self@.text(),
    {
        proof {
            reveal_strlit(" ");
            assert(" "@ =~= seq![' ']);
        }
        let mut text = self.name.clone();
        text.append(" ");
        push_decimal(&mut text, self.ttl.unwrap_or(0));
        text.append(" ");
        text.append(self.record_type.as_str());
        text.append(" ");
        text.append(self.value.as_str());
        text
    }

    /// This record with `value` in place of its value: same identity, zone,
    /// name, type and time to live.
    pub fn with_value(self, value: String) -> (updated: Record)
        ensures
            updated@ == self@.with_value(value@),
    {
        Record {
            record_type: self.record_type,
            id: self.id,
            zone_id: self.zone_id,
            name: self.name,
            value,
            ttl: self.ttl,
        }
    }
}

} // verus!
