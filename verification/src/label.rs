//! The label under which the platform's service manager knows a service.

use crate::error::Error;
use crate::text::{join, lemma_join_first, lemma_join_split, lemma_split_count, split};
use vstd::prelude::*;

verus! {

/// A service label: up to two leading parts and the application's name,
/// written with dots between them, as in `org.example.my_application`.
#[derive(Debug, PartialEq, Eq)]
pub struct Label {
    /// The first part of a label of three or more parts, such as `org`.
    pub qualifier: Option<String>,
    /// The part before the application's name, such as `example`.
    pub organization: Option<String>,
    /// The application's name.
    pub application: String,
}

/// A [`Label`] with its texts as sequences of characters.
pub struct LabelView {
    pub qualifier: Option<Seq<char>>,
    pub organization: Option<Seq<char>>,
    pub application: Seq<char>,
}

impl View for Label {
    type V = LabelView;

    open spec fn view(&self) -> LabelView {
        LabelView {
            qualifier: match self.qualifier {
                Some(q) => Some(q@),
                None => None,
            },
            organization: match self.organization {
                Some(o) => Some(o@),
                None => None,
            },
            application: self.application@,
        }
    }
}

impl LabelView {
    /// The label written out: the parts that are present, each followed by
    /// a dot, then the application's name.
    pub open spec fn qualified_name(self) -> Seq<char> {
        let qualifier = match self.qualifier {
            Some(q) => q.push('.'),
            None => Seq::empty(),
        };
        let organization = match self.organization {
            Some(o) => o.push('.'),
            None => Seq::empty(),
        };
        qualifier + organization + self.application
    }
}

/// The label that a name stands for. The name is cut at its dots. One part
/// is the application; of two, the first is the organization; of three, the
/// first is the qualifier and the second the organization; any further
/// parts stay in the application's name, dots included.
pub open spec fn spec_label(name: Seq<char>) -> LabelView {
    let tokens = split(name, '.');
    if tokens.len() == 1 {
        LabelView { qualifier: None, organization: None, application: tokens[0] }
    } else if tokens.len() == 2 {
        LabelView { qualifier: None, organization: Some(tokens[0]), application: tokens[1] }
    } else if tokens.len() == 3 {
        LabelView {
            qualifier: Some(tokens[0]),
            organization: Some(tokens[1]),
            application: tokens[2],
        }
    } else {
        LabelView {
            qualifier: Some(tokens[0]),
            organization: Some(tokens[1]),
            application: join(tokens.skip(2), '.'),
        }
    }
}

/// `std::io::Error`, the error type of `ServiceLabel::from_str`. It is
/// handed on as it comes; nothing is claimed of what it holds.
#[verifier::external_type_specification]
#[verifier::external_body]
pub struct ExIoError(std::io::Error);

/// Calls `ServiceLabel::from_str` of the `service-manager` crate and moves
/// the three fields of its label over. Taken on trust: that the call
/// succeeds on every name, and that the label it returns is the one that
/// [`spec_label`] describes.
#[verifier::external_body]
fn label_from_str(name: &str) -> (r: Result<Label, std::io::Error>)
    ensures
        r is Ok,
        r->Ok_0@ == spec_label(name@),
{
    let label = <service_manager::ServiceLabel as std::str::FromStr>::from_str(name)?;
    Ok(
        Label {
            qualifier: label.qualifier,
            organization: label.organization,
            application: label.application,
        },
    )
}

impl Label {
    /// Reads a service name as a label.
    pub fn parse(name: &str) -> (r: Result<Label, Error>)
        ensures
            r is Ok,
            r->Ok_0@ == spec_label(name@),
    {
        match label_from_str(name) {
            Ok(label) => Ok(label),
            Err(_) => Err(Error::IdentifierParseError(String::from_str(name))),
        }
    }

    /// The label written out with dots, as the service manager shows it.
    pub fn qualified_name(&self) -> (name: String)
        ensures
            name@ == self@.qualified_name(),
    {
        let mut name = String::new();
        proof {
            reveal_strlit(".");
        }
        if let Some(qualifier) = &self.qualifier {
            name.append(qualifier.as_str());
            name.append(".");
        }
        if let Some(organization) = &self.organization {
            name.append(organization.as_str());
            name.append(".");
        }
        name.append(self.application.as_str());
        name
    }
}

/// A label written out is the name it was read from, character for
/// character: reading a name as a label loses and changes nothing.
pub proof fn lemma_label_round_trip(name: Seq<char>)
    ensures
        spec_label(name).qualified_name() == name,
{
    let tokens = split(name, '.');
    lemma_join_split(name, '.');
    lemma_split_count(name, '.');
    if tokens.len() >= 2 {
        lemma_join_first(tokens, '.');
    }
    if tokens.len() >= 3 {
        lemma_join_first(tokens.skip(1), '.');
        assert(tokens.skip(1).skip(1) =~= tokens.skip(2));
    }
}

} // verus!
